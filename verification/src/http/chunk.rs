//! Pieces of a chunked body.
use vstd::prelude::*;
use vstd::utf8::*;
use super::{copy_range, line_bytes, line_end, read_trimmed_line, lemma_line_end, ParseError};
use crate::text::{
    lemma_parse_unsigned_bounds, lemma_skip_ws_bounds, parse_unsigned, parse_unsigned_range, skip_whitespace, trim,
    trim_end, trim_start,
};

verus! {

/// Reads one piece of a chunked body.
pub struct HttpChunk;

/// What reading one piece gives: its data and the number of bytes the piece takes, or
/// the error. The first line holds the size in hexadecimal (white space around it is
/// ignored); the data follows; then one more line ends the piece.
pub open spec fn chunk_spec(s: Seq<u8>) -> Result<(Seq<u8>, int), ParseError> {
    if s.len() == 0 {
        Err(ParseError::Pending)
    } else if !valid_utf8(line_bytes(s, 0)) {
        Err(ParseError::InvalidChunk)
    } else {
        let n = line_end(s, 0);
        match parse_unsigned(trim(decode_utf8(line_bytes(s, 0))), 16, usize::MAX as int) {
            None => Err(ParseError::InvalidChunk),
            Some(len) => if n + len >= s.len() {
                Err(ParseError::Pending)
            } else if !valid_utf8(line_bytes(s, n + len)) {
                Err(ParseError::InvalidChunk)
            } else {
                Ok((s.subrange(n, n + len), line_end(s, n + len)))
            },
        }
    }
}

/// A piece that parses takes no more bytes than there are.
pub proof fn lemma_chunk_spec_len(s: Seq<u8>)
    requires
        chunk_spec(s) is Ok,
    ensures
        chunk_spec(s)->Ok_0.1 <= s.len(),
{
    lemma_line_end(s, 0);
    let n = line_end(s, 0);
    let len = parse_unsigned(trim(decode_utf8(line_bytes(s, 0))), 16, usize::MAX as int)->Some_0;
    lemma_parse_unsigned_bounds(trim(decode_utf8(line_bytes(s, 0))), 16, usize::MAX as int);
    lemma_line_end(s, n + len);
}

impl HttpChunk {
    /// Reads one piece of a chunked body from the start of `buf`, as `chunk_spec` says:
    /// a copy of its data, and how many bytes the piece takes.
    pub fn parse(buf: &[u8]) -> (r: Result<(Vec<u8>, usize), ParseError>)
        ensures
            match chunk_spec(buf@) {
                Ok((d, n)) => r matches Ok((d2, n2)) && d2@ == d && n2 == n,
                Err(e) => r matches Err(e2) && e2 == e,
            },
    {
        if buf.len() == 0 {
            return Err(ParseError::Pending);
        }
        proof {
            lemma_line_end(buf@, 0);
        }
        let (t, n) = match read_trimmed_line(buf, 0) {
            None => {
                return Err(ParseError::InvalidChunk);
            },
            Some(x) => x,
        };
        let s0 = skip_whitespace(&t, 0);
        proof {
            lemma_skip_ws_bounds(t@, 0);
            assert(t@.subrange(s0 as int, t@.len() as int) == trim(
                decode_utf8(line_bytes(buf@, 0)),
            ));
        }
        let max_len: u64 = usize::MAX as u64;
        assert(max_len as int == usize::MAX as int);
        let len = match parse_unsigned_range(&t, s0, t.len(), 16, max_len) {
            None => {
                return Err(ParseError::InvalidChunk);
            },
            Some(v) => v as usize,
        };
        if len >= buf.len() - n {
            return Err(ParseError::Pending);
        }
        let data = copy_range(buf, n, n + len);
        proof {
            lemma_line_end(buf@, (n + len) as int);
        }
        match read_trimmed_line(buf, n + len) {
            None => Err(ParseError::InvalidChunk),
            Some((_, end)) => Ok((data, end)),
        }
    }
}

} // verus!
