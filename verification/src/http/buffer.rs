//! A growing byte buffer from which messages are read one after another, and the
//! framing of the pieces of a chunked response.
use vstd::prelude::*;
use super::chunk::{chunk_spec, lemma_chunk_spec_len, HttpChunk};
use super::request::{request_spec, HttpRequest};
use super::response::{lemma_response_spec_len, response_spec, HttpResponse};
use super::{copy_range, owned, ParseError};
use crate::text::{push_radix, radix_chars, string_from_chars};

verus! {

/// Bytes received so far, and how many of them have been read.
pub struct Buffer(pub Vec<u8>, pub usize);

/// The bytes that have not been read yet.
pub open spec fn unread(data: Seq<u8>, offset: int) -> Seq<u8> {
    if data.len() > offset {
        data.subrange(offset, data.len() as int)
    } else {
        seq![]
    }
}

impl Buffer {
    /// A buffer holding a copy of the given bytes, none of them read.
    pub fn new(data: Option<Vec<u8>>) -> (r: Buffer)
        ensures
            r.0@ == match data {
                Some(d) => d@,
                None => seq![],
            },
            r.1 == 0,
    {
        match data {
            Some(d) => Buffer(d, 0),
            None => Buffer(Vec::new(), 0),
        }
    }

    /// The bytes that have not been read yet.
    pub fn as_ref(&self) -> (r: Vec<u8>)
        ensures
            r@ == unread(self.0@, self.1 as int),
    {
        if self.0.len() > self.1 {
            copy_range(self.0.as_slice(), self.1, self.0.len())
        } else {
            Vec::new()
        }
    }

    /// The unread bytes, when there are some.
    pub fn js_buffer(&self) -> (r: Option<Vec<u8>>)
        ensures
            r is Some <==> unread(self.0@, self.1 as int).len() > 0,
            r matches Some(b) ==> b@ == unread(self.0@, self.1 as int),
    {
        let buf = self.as_ref();
        if buf.len() > 0 {
            Some(buf)
        } else {
            None
        }
    }

    /// How many bytes are unread.
    pub fn js_length(&self) -> (r: usize)
        ensures
            r == unread(self.0@, self.1 as int).len(),
    {
        if self.0.len() > self.1 {
            self.0.len() - self.1
        } else {
            0
        }
    }

    /// Appends bytes.
    pub fn js_append(&mut self, data: &[u8]) -> (r: bool)
        ensures
            final(self).0@ == old(self).0@ + data@,
            final(self).1 == old(self).1,
            r,
    {
        let mut i: usize = 0;
        let ghost start = self.0@;
        while i < data.len()
            invariant
                0 <= i <= data@.len(),
                self.0@ == start + data@.subrange(0, i as int),
                self.1 == old(self).1,
                start == old(self).0@,
            decreases data@.len() - i,
        {
            self.0.push(data[i]);
            i = i + 1;
            assert(self.0@ =~= start + data@.subrange(0, i as int));
        }
        assert(data@.subrange(0, data@.len() as int) =~= data@);
        true
    }

    /// Parses a request from the unread bytes; nothing is marked read.
    pub fn js_parse_request(&self) -> (r: Result<HttpRequest, ParseError>)
        ensures
            match request_spec(unread(self.0@, self.1 as int)) {
                Ok(v) => r matches Ok(q) && q@ == v,
                Err(e) => r matches Err(e2) && e2 == e,
            },
    {
        let buf = self.as_ref();
        HttpRequest::parse(buf.as_slice())
    }

    /// Parses a response head from the unread bytes and marks the head read.
    pub fn js_parse_response(&mut self) -> (r: Result<HttpResponse, ParseError>)
        ensures
            final(self).0@ == old(self).0@,
            match response_spec(unread(old(self).0@, old(self).1 as int)) {
                Ok((h, n)) => r matches Ok(resp) && resp@ == h && final(self).1 == old(self).1 + n,
                Err(e) => r matches Err(e2) && e2 == e && final(self).1 == old(self).1,
            },
    {
        let buf = self.as_ref();
        let total_len = self.0.len();
        match HttpResponse::parse(buf.as_slice()) {
            Ok((resp, n)) => {
                proof {
                    lemma_response_spec_len(buf@);
                    assert(n <= buf@.len());
                    assert(buf@.len() == 0 || buf@.len() == self.0@.len() - self.1);
                    assert(self.1 + n <= total_len || n == 0);
                }
                self.1 = self.1 + n;
                Ok(resp)
            },
            Err(e) => Err(e),
        }
    }

    /// Reads one piece of a chunked body from the unread bytes and marks it read: its
    /// data, or nothing when the piece is empty.
    pub fn js_parse_chunk_data(&mut self) -> (r: Result<Option<Vec<u8>>, ParseError>)
        ensures
            final(self).0@ == old(self).0@,
            match chunk_spec(unread(old(self).0@, old(self).1 as int)) {
                Ok((d, n)) => r matches Ok(o) && final(self).1 == old(self).1 + n && (o is Some
                    <==> d.len() > 0) && (o matches Some(b) ==> b@ == d),
                Err(e) => r matches Err(e2) && e2 == e && final(self).1 == old(self).1,
            },
    {
        let buf = self.as_ref();
        let total_len = self.0.len();
        match HttpChunk::parse(buf.as_slice()) {
            Ok((data, n)) => {
                proof {
                    lemma_chunk_spec_len(buf@);
                    assert(n <= buf@.len());
                    assert(buf@.len() == 0 || buf@.len() == self.0@.len() - self.1);
                    assert(self.1 + n <= total_len || n == 0);
                }
                self.1 = self.1 + n;
                if data.len() == 0 {
                    Ok(None)
                } else {
                    Ok(Some(data))
                }
            },
            Err(e) => Err(e),
        }
    }

    /// Drops every byte.
    pub fn js_clear(&mut self)
        ensures
            final(self).0@ == Seq::<u8>::empty(),
            final(self).1 == 0,
    {
        self.0.clear();
        self.1 = 0;
    }
}

/// The stream of a chunked response, open until it is ended.
pub struct WasiChunkResponse {
    pub open: bool,
}

/// The frame around a piece of data: its size in lower-case hexadecimal and a line
/// break before it, a line break after it.
pub open spec fn chunk_frame(len: nat) -> (Seq<char>, Seq<char>) {
    (radix_chars(len, 16) + seq!['\r', '\n'], seq!['\r', '\n'])
}

impl WasiChunkResponse {
    /// Whether listeners can still be added: only while the stream is open.
    pub fn js_on(&self) -> (r: bool)
        ensures
            r == self.open,
    {
        self.open
    }

    /// The frame to write around a piece of data of the given size, or nothing when the
    /// stream is shut.
    pub fn js_write(&self, data_len: usize) -> (r: Option<(String, String)>)
        ensures
            r is Some <==> self.open,
            r matches Some((a, b)) ==> (a@, b@) == chunk_frame(data_len as nat),
    {
        if !self.open {
            return None;
        }
        let mut head: Vec<char> = Vec::new();
        push_radix(&mut head, data_len as u64, 16);
        head.push('\r');
        head.push('\n');
        let mut tail: Vec<char> = Vec::new();
        tail.push('\r');
        tail.push('\n');
        assert(tail@ =~= seq!['\r', '\n']);
        assert(head@ =~= radix_chars(data_len as nat, 16) + seq!['\r', '\n']);
        Some((string_from_chars(head), string_from_chars(tail)))
    }

    /// Ends the stream once the final write (of the data given to `end`) has been tried:
    /// a stream already shut is refused; a failed write leaves the stream open and its
    /// error is the answer; otherwise the closing piece is sent and the stream is shut.
    pub fn js_end(&mut self, write_ok: bool) -> (r: EndStep)
        ensures
            !old(self).open ==> r == EndStep::Shutdown && !final(self).open,
            old(self).open && !write_ok ==> r == EndStep::WriteFailed && final(self).open,
            old(self).open && write_ok ==> (r matches EndStep::Close(s) && s@ == seq![
                '0',
                '\r',
                '\n',
                '\r',
                '\n',
            ]) && !final(self).open,
    {
        if !self.open {
            return EndStep::Shutdown;
        }
        if !write_ok {
            return EndStep::WriteFailed;
        }
        self.open = false;
        let mut v: Vec<char> = Vec::new();
        v.push('0');
        v.push('\r');
        v.push('\n');
        v.push('\r');
        v.push('\n');
        assert(v@ =~= seq!['0', '\r', '\n', '\r', '\n']);
        EndStep::Close(string_from_chars(v))
    }
}

/// What ending a chunked stream comes to.
#[derive(Debug, Clone, PartialEq)]
pub enum EndStep {
    /// The stream was already shut: the call is refused.
    Shutdown,
    /// The final write failed: its error is the answer, and the stream stays open.
    WriteFailed,
    /// The closing piece to send; the stream is now shut.
    Close(String),
}

} // verus!
