//! HTTP response heads: parsing, printing and the fields a script may set.
use vstd::prelude::*;
use vstd::utf8::*;
use super::{
    headers_distinct, lemma_headers_spec_distinct,
    crlf, header_insert, first_words, headers_spec, headers_text, headers_view, insert_header, lemma_headers_spec_end,
    header_key, header_value, lemma_line_end, line_bytes, line_end, line_text, owned, str_to_lowercase, parse_header_lines, push_headers, push_str, read_trimmed_line,
    utf8_bytes, word_bounds, BodyLen, HeaderSeq, ParseError, Version,
};
use super::request::clone_headers;
use crate::text::{parse_unsigned, parse_unsigned_range, push_radix, radix_chars, string_from_chars, sub_chars};

verus! {

/// The head of an HTTP response.
#[derive(Debug, Clone)]
pub struct HttpResponse {
    pub version: Version,
    pub status_code: u16,
    pub status_text: String,
    pub headers: Vec<(String, String)>,
    pub body_len: BodyLen,
}

/// The head of a response as plain text.
pub ghost struct ResponseHead {
    pub version: Version,
    pub status_code: u16,
    pub status_text: Seq<char>,
    pub headers: HeaderSeq,
    pub body_len: BodyLen,
}

impl View for HttpResponse {
    type V = ResponseHead;

    open spec fn view(&self) -> ResponseHead {
        ResponseHead {
            version: self.version,
            status_code: self.status_code,
            status_text: self.status_text@,
            headers: headers_view(self.headers@),
            body_len: self.body_len,
        }
    }
}

/// The reason phrase that goes with a status code when none is given.
pub open spec fn default_status_text(code: int) -> Seq<char> {
    if code == 200 {
        "OK"@
    } else if code == 400 {
        "Bad Request"@
    } else if code == 404 {
        "Not Found"@
    } else if code == 500 {
        "Internal Server Error"@
    } else {
        seq![]
    }
}

/// The reason phrase that goes with a status code when none is given.
pub fn status_text_for(code: i64) -> (r: String)
    ensures
        r@ == default_status_text(code as int),
{
    if code == 200 {
        owned("OK")
    } else if code == 400 {
        owned("Bad Request")
    } else if code == 404 {
        owned("Not Found")
    } else if code == 500 {
        owned("Internal Server Error")
    } else {
        String::new()
    }
}

/// The status line of a response: its first word is the version, its second the status
/// code, its third (if any) the reason phrase.
pub open spec fn status_line_spec(t: Seq<char>) -> Result<(Version, u16, Seq<char>), ParseError> {
    let w = word_bounds(t);
    if w.0 >= t.len() || w.2 >= t.len() {
        Err(ParseError::InvalidStatusLine)
    } else {
        match Version::parse_spec(t.subrange(w.0, w.1)) {
            Err(e) => Err(e),
            Ok(v) => match parse_unsigned(t.subrange(w.2, w.3), 10, 65535) {
                None => Err(ParseError::InvalidStatusCode),
                Some(c) => Ok(
                    (
                        v,
                        c as u16,
                        if w.4 < t.len() {
                            t.subrange(w.4, w.5)
                        } else {
                            seq![]
                        },
                    ),
                ),
            },
        }
    }
}

/// What parsing a response head gives: the head and the number of bytes it takes,
/// or the error. The first line is the status line; the header section follows; when it
/// announces a length, that many bytes must follow the head.
pub open spec fn response_spec(s: Seq<u8>) -> Result<(ResponseHead, int), ParseError> {
    if s.len() == 0 {
        Err(ParseError::Pending)
    } else if !valid_utf8(super::line_bytes(s, 0)) {
        Err(ParseError::OtherParseError)
    } else {
        match status_line_spec(line_text(s, 0)) {
            Err(e) => Err(e),
            Ok((v, code, text)) => match headers_spec(
                s,
                line_end(s, 0),
                seq![],
                BodyLen::Length(0),
                true,
            ) {
                Err(e) => Err(e),
                Ok((hs, bl, total)) => {
                    let head = ResponseHead {
                        version: v,
                        status_code: code,
                        status_text: text,
                        headers: hs,
                        body_len: bl,
                    };
                    match bl {
                        BodyLen::Length(n) => if s.len() - total < n {
                            Err(ParseError::Pending)
                        } else {
                            Ok((head, total))
                        },
                        BodyLen::Chunked => Ok((head, total)),
                    }
                },
            },
        }
    }
}

/// Reads the status line of a response.
fn process_resp_line(t: &Vec<char>) -> (r: Result<(Version, u16, String), ParseError>)
    ensures
        match status_line_spec(t@) {
            Ok((v, c, txt)) => r matches Ok((v2, c2, txt2)) && v2 == v && c2 == c && txt2@ == txt,
            Err(e) => r matches Err(e2) && e2 == e,
        },
{
    let (a0, a1, b0, b1, c0, c1) = first_words(t);
    if a0 >= t.len() || b0 >= t.len() {
        return Err(ParseError::InvalidStatusLine);
    }
    let version_text = string_from_chars(sub_chars(t, a0, a1));
    let version = Version::from_str(version_text.as_str())?;
    let code = parse_unsigned_range(t, b0, b1, 10, 65535);
    match code {
        None => Err(ParseError::InvalidStatusCode),
        Some(c) => {
            let text = if c0 < t.len() {
                string_from_chars(sub_chars(t, c0, c1))
            } else {
                String::new()
            };
            Ok((version, c as u16, text))
        },
    }
}

/// The body-framing header line of a response head.
pub open spec fn body_len_text(bl: BodyLen) -> Seq<char> {
    match bl {
        BodyLen::Length(n) => if n == 0 {
            seq![]
        } else {
            "Content-Length: "@ + radix_chars(n as nat, 10) + crlf()
        },
        BodyLen::Chunked => "Transfer-Encoding: chunked"@ + crlf(),
    }
}

/// The text of a response head: the status line, the header lines, the framing line
/// and an empty line.
pub open spec fn response_text(h: ResponseHead) -> Seq<char> {
    h.version.text() + seq![' '] + radix_chars(h.status_code as nat, 10) + seq![' '] + h.status_text
        + crlf() + headers_text(h.headers) + body_len_text(h.body_len) + crlf()
}

/// A head that parses takes no more bytes than there are.
pub proof fn lemma_response_spec_len(s: Seq<u8>)
    requires
        response_spec(s) is Ok,
    ensures
        response_spec(s)->Ok_0.1 <= s.len(),
{
    super::lemma_line_end(s, 0);
    lemma_headers_spec_end(s, line_end(s, 0), seq![], BodyLen::Length(0), true);
}

/// Cutting the input after a line feed at `k - 1` leaves every line that ends by `k`
/// as it was.
proof fn lemma_line_end_prefix(w: Seq<u8>, k: int, q: int)
    requires
        0 <= q < k <= w.len(),
        w[k - 1] == 10,
    ensures
        line_end(w, q) <= k,
        line_end(w.take(k), q) == line_end(w, q),
        line_bytes(w.take(k), q) == line_bytes(w, q),
    decreases k - q,
{
    let p = w.take(k);
    assert(p[q] == w[q]);
    if w[q] != 10 {
        lemma_line_end_prefix(w, k, q + 1);
        assert(line_end(p, q) == line_end(p, q + 1));
        assert(line_end(w, q) == line_end(w, q + 1));
    } else {
        assert(line_end(p, q) == q + 1);
        assert(line_end(w, q) == q + 1);
    }
    let e = line_end(w, q);
    lemma_line_end(w, q);
    assert(e <= k);
    assert(line_bytes(p, q).len() == e - q);
    assert(line_bytes(w, q).len() == e - q);
    assert forall|j: int| 0 <= j < e - q implies line_bytes(p, q)[j] == line_bytes(w, q)[j] by {
        assert(p[q + j] == w[q + j]);
    }
    assert(line_bytes(p, q) =~= line_bytes(w, q));
}

/// A header section cut after a line feed before its empty line asks for more input.
proof fn lemma_headers_prefix_pending(
    w: Seq<u8>,
    k: int,
    q: int,
    hs: HeaderSeq,
    bl: BodyLen,
    ca: bool,
)
    requires
        headers_spec(w, q, hs, bl, ca) is Ok,
        0 < k <= w.len(),
        0 <= q <= k < headers_spec(w, q, hs, bl, ca)->Ok_0.2,
        w[k - 1] == 10,
    ensures
        headers_spec(w.take(k), q, hs, bl, ca) == Err::<(HeaderSeq, BodyLen, int), ParseError>(
            ParseError::Pending,
        ),
    decreases k - q,
{
    let p = w.take(k);
    if q < k {
        lemma_line_end(w, q);
        lemma_line_end_prefix(w, k, q);
        let t = line_text(w, q);
        assert(line_text(p, q) == t);
        let np = line_end(w, q);
        if t.len() != 0 {
            let kk = header_key(t);
            let v = header_value(t);
            let hs2 = header_insert(hs, kk, v);
            let lk = str_to_lowercase(kk);
            if lk == "content-length"@ {
                match parse_unsigned(v, 10, usize::MAX as int) {
                    None => {},
                    Some(n) => lemma_headers_prefix_pending(
                        w,
                        k,
                        np,
                        hs2,
                        BodyLen::Length(n as usize),
                        ca,
                    ),
                }
            } else if ca && lk == "transfer-encoding"@ && v == "chunked"@ {
                lemma_headers_prefix_pending(w, k, np, hs2, BodyLen::Chunked, ca);
            } else {
                lemma_headers_prefix_pending(w, k, np, hs2, bl, ca);
            }
        }
    }
}

/// A response head cut after a line feed before the empty line that ends it, or cut to
/// nothing, asks for more input: parsing it gives `Pending`.
pub proof fn lemma_response_prefix_pending(w: Seq<u8>, k: int)
    requires
        response_spec(w) is Ok,
        0 <= k < response_spec(w)->Ok_0.1,
        k == 0 || w[k - 1] == 10,
    ensures
        response_spec(w.take(k)) == Err::<(ResponseHead, int), ParseError>(ParseError::Pending),
{
    lemma_response_spec_len(w);
    if k > 0 {
        let p = w.take(k);
        lemma_line_end(w, 0);
        lemma_line_end_prefix(w, k, 0);
        assert(line_text(p, 0) == line_text(w, 0));
        lemma_headers_prefix_pending(w, k, line_end(w, 0), seq![], BodyLen::Length(0), true);
    }
}

impl HttpResponse {
    /// A response with the given status code and headers, version 1.0, no body, and the
    /// reason phrase that goes with the code.
    pub fn new(status_code: u16, headers: Option<Vec<(String, String)>>) -> (r: HttpResponse)
        ensures
            r@ == (ResponseHead {
                version: Version::V1_0,
                status_code: status_code,
                status_text: default_status_text(status_code as int),
                headers: match headers {
                    Some(h) => headers_view(h@),
                    None => seq![],
                },
                body_len: BodyLen::Length(0),
            }),
    {
        let hs = match headers {
            Some(h) => h,
            None => {
                let empty: Vec<(String, String)> = Vec::new();
                assert(headers_view(empty@) =~= seq![]);
                empty
            },
        };
        HttpResponse {
            version: Version::V1_0,
            status_code,
            status_text: status_text_for(status_code as i64),
            headers: hs,
            body_len: BodyLen::Length(0),
        }
    }

    /// A response with the given headers, status code and reason phrase, version 1.0 and
    /// no body.
    pub fn from_status(headers: Option<Vec<(String, String)>>, status_code: u16, status_text: &str) -> (r:
        HttpResponse)
        ensures
            r@ == (ResponseHead {
                version: Version::V1_0,
                status_code: status_code,
                status_text: status_text@,
                headers: match headers {
                    Some(h) => headers_view(h@),
                    None => seq![],
                },
                body_len: BodyLen::Length(0),
            }),
    {
        let hs = match headers {
            Some(h) => h,
            None => {
                let empty: Vec<(String, String)> = Vec::new();
                assert(headers_view(empty@) =~= seq![]);
                empty
            },
        };
        HttpResponse {
            version: Version::V1_0,
            status_code,
            status_text: owned(status_text),
            headers: hs,
            body_len: BodyLen::Length(0),
        }
    }

    /// Parses a response head from the start of `req`, as `response_spec` says: the head,
    /// and how many bytes it takes.
    pub fn parse(req: &[u8]) -> (r: Result<(HttpResponse, usize), ParseError>)
        ensures
            match response_spec(req@) {
                Ok((h, n)) => r matches Ok((resp, m)) && resp@ == h && m == n,
                Err(e) => r matches Err(e2) && e2 == e,
            },
            r matches Ok((resp, _)) ==> headers_distinct(resp@.headers),
    {
        if req.len() == 0 {
            return Err(ParseError::Pending);
        }
        let (t, e) = match read_trimmed_line(req, 0) {
            None => {
                return Err(ParseError::OtherParseError);
            },
            Some(x) => x,
        };
        let (version, code, text) = process_resp_line(&t)?;
        let (headers, bl, total) = parse_header_lines(req, e, true)?;
        proof {
            lemma_headers_spec_end(req@, e as int, seq![], BodyLen::Length(0), true);
            lemma_headers_spec_distinct(req@, e as int, seq![], BodyLen::Length(0), true);
        }
        match bl {
            BodyLen::Length(n) => {
                if req.len() - total < n {
                    return Err(ParseError::Pending);
                }
            },
            BodyLen::Chunked => {},
        }
        Ok(
            (
                HttpResponse {
                    version,
                    status_code: code,
                    status_text: text,
                    headers,
                    body_len: bl,
                },
                total,
            ),
        )
    }

    /// The text of the head, as `response_text` says.
    pub fn to_string(&self) -> (r: String)
        ensures
            r@ == response_text(self@),
    {
        let mut out: Vec<char> = Vec::new();
        push_str(&mut out, self.version.as_str());
        out.push(' ');
        push_radix(&mut out, self.status_code as u64, 10);
        out.push(' ');
        push_str(&mut out, self.status_text.as_str());
        out.push('\r');
        out.push('\n');
        push_headers(&mut out, &self.headers);
        match self.body_len {
            BodyLen::Length(n) => {
                if n != 0 {
                    push_str(&mut out, "Content-Length: ");
                    push_radix(&mut out, n as u64, 10);
                    out.push('\r');
                    out.push('\n');
                }
            },
            BodyLen::Chunked => {
                push_str(&mut out, "Transfer-Encoding: chunked");
                out.push('\r');
                out.push('\n');
            },
        }
        out.push('\r');
        out.push('\n');
        assert(out@ =~= response_text(self@));
        string_from_chars(out)
    }
}

/// The headers after setting each given one, in order.
pub open spec fn insert_all(acc: HeaderSeq, hs: HeaderSeq) -> HeaderSeq
    decreases hs.len(),
{
    if hs.len() == 0 {
        acc
    } else {
        header_insert(insert_all(acc, hs.drop_last()), hs.last().0, hs.last().1)
    }
}

impl HttpResponse {
    /// The body framing.
    pub fn js_get_body_length(&self) -> (r: BodyLen)
        ensures
            r == self.body_len,
    {
        self.body_len
    }

    /// Sets the body length: no value means none, a number means that many bytes (a
    /// negative one wraps around, as a cast does).
    pub fn js_set_body_length(&mut self, val: Option<i32>)
        ensures
            final(self).body_len == match val {
                None => BodyLen::Length(0),
                Some(n) => BodyLen::Length(n as usize),
            },
            final(self)@.version == old(self)@.version,
            final(self)@.status_code == old(self)@.status_code,
            final(self)@.status_text == old(self)@.status_text,
            final(self)@.headers == old(self)@.headers,
    {
        match val {
            None => {
                self.body_len = BodyLen::Length(0);
            },
            Some(n) => {
                self.body_len = BodyLen::Length(n as usize);
            },
        }
    }

    /// A copy of the headers.
    pub fn js_get_headers(&self) -> (r: Vec<(String, String)>)
        ensures
            headers_view(r@) == headers_view(self.headers@),
    {
        clone_headers(&self.headers)
    }

    /// Replaces the headers by the given ones.
    pub fn js_set_headers(&mut self, headers: Vec<(String, String)>)
        ensures
            final(self)@.headers == insert_all(seq![], headers_view(headers@)),
            final(self)@.version == old(self)@.version,
            final(self)@.status_code == old(self)@.status_code,
            final(self)@.status_text == old(self)@.status_text,
            final(self)@.body_len == old(self)@.body_len,
    {
        let ghost given = headers_view(headers@);
        let mut hs: Vec<(String, String)> = Vec::new();
        let mut i: usize = 0;
        assert(headers_view(hs@) =~= seq![]);
        while i < headers.len()
            invariant
                0 <= i <= headers@.len(),
                given == headers_view(headers@),
                headers_view(hs@) == insert_all(seq![], given.take(i as int)),
            decreases headers@.len() - i,
        {
            let k = headers[i].0.clone();
            let v = headers[i].1.clone();
            insert_header(&mut hs, k, v);
            assert(given.take(i + 1).drop_last() =~= given.take(i as int));
            i = i + 1;
        }
        assert(given.take(headers@.len() as int) =~= given);
        self.headers = hs;
    }

    /// The status code.
    pub fn js_get_status(&self) -> (r: i32)
        ensures
            r == self.status_code,
    {
        self.status_code as i32
    }

    /// Sets the status code (the low 16 bits of the number) and the reason phrase that
    /// goes with the number.
    pub fn js_set_status(&mut self, status: i32)
        ensures
            final(self).status_code == status as u16,
            final(self)@.status_text == default_status_text(status as int),
            final(self)@.version == old(self)@.version,
            final(self)@.headers == old(self)@.headers,
            final(self)@.body_len == old(self)@.body_len,
    {
        self.status_code = status as u16;
        self.status_text = status_text_for(status as i64);
    }

    /// The text of the version.
    pub fn js_get_version(&self) -> (r: String)
        ensures
            r@ == self.version.text(),
    {
        owned(self.version.as_str())
    }

    /// Sets the version the text names; other texts leave it.
    pub fn js_set_version(&mut self, version: &str)
        ensures
            final(self).version == match Version::parse_spec(version@) {
                Ok(v) => v,
                Err(_) => old(self).version,
            },
            final(self)@.status_code == old(self)@.status_code,
            final(self)@.status_text == old(self)@.status_text,
            final(self)@.headers == old(self)@.headers,
            final(self)@.body_len == old(self)@.body_len,
    {
        if let Ok(v) = Version::from_str(version) {
            self.version = v;
        }
    }

    /// The reason phrase.
    pub fn js_get_status_text(&self) -> (r: String)
        ensures
            r@ == self.status_text@,
    {
        self.status_text.clone()
    }

    /// Sets the reason phrase.
    pub fn js_set_status_text(&mut self, status_text: String)
        ensures
            final(self)@.status_text == status_text@,
            final(self)@.version == old(self)@.version,
            final(self)@.status_code == old(self)@.status_code,
            final(self)@.headers == old(self)@.headers,
            final(self)@.body_len == old(self)@.body_len,
    {
        self.status_text = status_text;
    }

    /// The whole response as bytes. A given body sets the length to its size and follows
    /// the head; without one, a chunked response stays chunked and any other has its length
    /// set to zero.
    pub fn js_encode(&mut self, body: Option<Vec<u8>>) -> (r: Vec<u8>)
        ensures
            final(self).body_len == match body {
                Some(b) => BodyLen::Length(b@.len() as usize),
                None => if old(self).body_len == BodyLen::Chunked {
                    BodyLen::Chunked
                } else {
                    BodyLen::Length(0)
                },
            },
            final(self)@.version == old(self)@.version,
            final(self)@.status_code == old(self)@.status_code,
            final(self)@.status_text == old(self)@.status_text,
            final(self)@.headers == old(self)@.headers,
            r@ == encode_utf8(response_text(final(self)@)) + match body {
                Some(b) => b@,
                None => seq![],
            },
    {
        match &body {
            Some(b) => {
                self.body_len = BodyLen::Length(b.len());
            },
            None => {
                if self.body_len != BodyLen::Chunked {
                    self.body_len = BodyLen::Length(0);
                }
            },
        }
        let head = self.to_string();
        let mut buf = utf8_bytes(&head);
        match body {
            Some(b) => {
                let ghost start = buf@;
                let mut i: usize = 0;
                while i < b.len()
                    invariant
                        0 <= i <= b@.len(),
                        buf@ == start + b@.subrange(0, i as int),
                    decreases b@.len() - i,
                {
                    buf.push(b[i]);
                    i = i + 1;
                    assert(buf@ =~= start + b@.subrange(0, i as int));
                }
                assert(b@.subrange(0, b@.len() as int) =~= b@);
            },
            None => {
                assert(buf@ =~= buf@ + Seq::<u8>::empty());
            },
        }
        buf
    }

    /// Switches the response to a chunked body over HTTP/1.1 and gives the bytes of its
    /// head.
    pub fn js_chunk(&mut self) -> (r: Vec<u8>)
        ensures
            final(self).body_len == BodyLen::Chunked,
            final(self).version == Version::V1_1,
            final(self)@.status_code == old(self)@.status_code,
            final(self)@.status_text == old(self)@.status_text,
            final(self)@.headers == old(self)@.headers,
            r@ == encode_utf8(response_text(final(self)@)),
    {
        self.body_len = BodyLen::Chunked;
        self.version = Version::V1_1;
        let head = self.to_string();
        utf8_bytes(&head)
    }
}

} // verus!
