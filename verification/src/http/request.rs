//! HTTP request heads and bodies: parsing, printing and the fields a script may set.
use vstd::prelude::*;
use vstd::utf8::*;
use super::{
    ascii_lower, ascii_upper,    headers_distinct, lemma_headers_spec_distinct,
    crlf, first_words, get_header, header_get, header_insert, headers_spec, headers_text,
    headers_view, insert_header, lemma_headers_spec_end, line_end, line_text, owned,
    parse_header_lines, push_headers, push_str, read_trimmed_line, str_to_lowercase,
    str_to_uppercase, lower_case, upper_case, utf8_bytes, word_bounds, BodyLen, HeaderSeq,
    Method, ParseError, Version,
};
use crate::text::{push_radix, radix_chars, str_eq, string_from_chars, sub_chars};

verus! {

/// Resource requested.
#[derive(Debug, Clone, PartialEq)]
pub enum Resource {
    /// A path for a subpage
    Path(String),
}

/// An HTTP request: its head and its body.
#[derive(Debug, Clone)]
pub struct HttpRequest {
    pub method: Method,
    pub version: Version,
    pub resource: Resource,
    pub headers: Vec<(String, String)>,
    pub body: Vec<u8>,
}

/// A request as plain values.
pub ghost struct RequestView {
    pub method: Method,
    pub version: Version,
    pub resource: Seq<char>,
    pub headers: HeaderSeq,
    pub body: Seq<u8>,
}

impl View for HttpRequest {
    type V = RequestView;

    open spec fn view(&self) -> RequestView {
        RequestView {
            method: self.method,
            version: self.version,
            resource: match self.resource {
                Resource::Path(p) => p@,
            },
            headers: headers_view(self.headers@),
            body: self.body@,
        }
    }
}

/// A value a script assigns to the body of a request.
pub enum BodyValue {
    /// A string: the body becomes its UTF-8 bytes.
    Text(String),
    /// Bytes: the body becomes a copy of them.
    Bytes(Vec<u8>),
    /// Anything else: the body is left as it is.
    Other,
}

/// The request line of a request: its first word is the method, its second the
/// resource, its third the version.
pub open spec fn request_line_spec(t: Seq<char>) -> Result<(Method, Seq<char>, Version), ParseError> {
    let w = word_bounds(t);
    if w.0 >= t.len() {
        Err(ParseError::InvalidMethod)
    } else if w.2 >= t.len() {
        Err(ParseError::InvalidUrl)
    } else if w.4 >= t.len() {
        Err(ParseError::InvalidVersion)
    } else {
        match Method::parse_spec(t.subrange(w.0, w.1)) {
            Err(e) => Err(e),
            Ok(m) => match Version::parse_spec(t.subrange(w.4, w.5)) {
                Err(e) => Err(e),
                Ok(v) => Ok((m, t.subrange(w.2, w.3), v)),
            },
        }
    }
}

/// What parsing a request gives. The first line is the request line; the header
/// section follows; the body is the number of bytes that `Content-Length` gives (none
/// without it), and the parse is pending until they are all there.
pub open spec fn request_spec(s: Seq<u8>) -> Result<RequestView, ParseError> {
    if s.len() == 0 {
        Err(ParseError::Pending)
    } else if !valid_utf8(super::line_bytes(s, 0)) {
        Err(ParseError::OtherParseError)
    } else {
        match request_line_spec(line_text(s, 0)) {
            Err(e) => Err(e),
            Ok((m, r, v)) => match headers_spec(s, line_end(s, 0), seq![], BodyLen::Length(0), false) {
                Err(e) => Err(e),
                Ok((hs, bl, total)) => {
                    let n = match bl {
                        BodyLen::Length(n) => n as int,
                        BodyLen::Chunked => 0,
                    };
                    if total + n > s.len() {
                        Err(ParseError::Pending)
                    } else {
                        Ok(
                            RequestView {
                                method: m,
                                version: v,
                                resource: r,
                                headers: hs,
                                body: s.subrange(total, total + n),
                            },
                        )
                    }
                },
            },
        }
    }
}

/// Whether some header is named `Content-Length`, in any case.
pub open spec fn has_content_length(hs: HeaderSeq) -> bool {
    exists|i: int| 0 <= i < hs.len() && str_to_lowercase(#[trigger] hs[i].0) == "content-length"@
}

/// The text of a request head: the request line, the header lines, a `Content-Length`
/// line when there is a body and no header gives its length, and an empty line.
pub open spec fn request_text(r: RequestView) -> Seq<char> {
    r.method.text() + seq![' '] + r.resource + seq![' '] + r.version.text() + crlf() + headers_text(
        r.headers,
    ) + (if r.body.len() > 0 && !has_content_length(r.headers) {
        "Content-Length: "@ + radix_chars(r.body.len(), 10) + crlf()
    } else {
        seq![]
    }) + crlf()
}

/// The headers after setting each given one, its name in lower case, in order.
pub open spec fn insert_lowercased(acc: HeaderSeq, hs: HeaderSeq) -> HeaderSeq
    decreases hs.len(),
{
    if hs.len() == 0 {
        acc
    } else {
        header_insert(
            insert_lowercased(acc, hs.drop_last()),
            str_to_lowercase(hs.last().0),
            hs.last().1,
        )
    }
}

/// Reads the request line of a request.
fn process_req_line(t: &Vec<char>) -> (r: Result<(Method, Resource, Version), ParseError>)
    ensures
        match request_line_spec(t@) {
            Ok((m, res, v)) => r matches Ok((m2, Resource::Path(p), v2)) && m2 == m && p@ == res
                && v2 == v,
            Err(e) => r matches Err(e2) && e2 == e,
        },
{
    let (a0, a1, b0, b1, c0, c1) = first_words(t);
    if a0 >= t.len() {
        return Err(ParseError::InvalidMethod);
    }
    if b0 >= t.len() {
        return Err(ParseError::InvalidUrl);
    }
    if c0 >= t.len() {
        return Err(ParseError::InvalidVersion);
    }
    let method_text = string_from_chars(sub_chars(t, a0, a1));
    let method = Method::from_str(method_text.as_str())?;
    let resource = string_from_chars(sub_chars(t, b0, b1));
    let version_text = string_from_chars(sub_chars(t, c0, c1));
    let version = Version::from_str(version_text.as_str())?;
    Ok((method, Resource::Path(resource), version))
}

/// A copy of a header list.
pub fn clone_headers(hs: &Vec<(String, String)>) -> (r: Vec<(String, String)>)
    ensures
        headers_view(r@) == headers_view(hs@),
{
    let mut out: Vec<(String, String)> = Vec::new();
    let mut i: usize = 0;
    while i < hs.len()
        invariant
            0 <= i <= hs@.len(),
            headers_view(out@) == headers_view(hs@).take(i as int),
        decreases hs@.len() - i,
    {
        let k = hs[i].0.clone();
        let v = hs[i].1.clone();
        assert(k@ == hs@[i as int].0@);
        assert(v@ == hs@[i as int].1@);
        let ghost before = out@;
        out.push((k, v));
        assert(headers_view(out@) =~= headers_view(before).push((hs@[i as int].0@, hs@[i as int].1@)));
        i = i + 1;
        assert(headers_view(out@) =~= headers_view(hs@).take(i as int));
    }
    assert(headers_view(hs@).take(hs@.len() as int) =~= headers_view(hs@));
    out
}

impl HttpRequest {
    /// Parses a request from `req`, as `request_spec` says.
    pub fn parse(req: &[u8]) -> (r: Result<Self, ParseError>)
        ensures
            match request_spec(req@) {
                Ok(v) => r matches Ok(q) && q@ == v,
                Err(e) => r matches Err(e2) && e2 == e,
            },
            r matches Ok(q) ==> headers_distinct(q@.headers),
    {
        if req.len() == 0 {
            return Err(ParseError::Pending);
        }
        let (t, e) = match read_trimmed_line(req, 0) {
            None => {
                return Err(ParseError::OtherParseError);
            },
            Some(x) => x,
        };
        let (method, resource, version) = process_req_line(&t)?;
        let (headers, bl, total) = parse_header_lines(req, e, false)?;
        proof {
            lemma_headers_spec_end(req@, e as int, seq![], BodyLen::Length(0), false);
            lemma_headers_spec_distinct(req@, e as int, seq![], BodyLen::Length(0), false);
        }
        let body_len = match bl {
            BodyLen::Length(n) => n,
            BodyLen::Chunked => 0,
        };
        if body_len > req.len() - total {
            return Err(ParseError::Pending);
        }
        let body = super::copy_range(req, total, total + body_len);
        Ok(HttpRequest { method, version, resource, headers, body })
    }

    /// Whether some header is named `Content-Length`, in any case.
    fn has_length_header(&self) -> (r: bool)
        ensures
            r == has_content_length(headers_view(self.headers@)),
    {
        let ghost view = headers_view(self.headers@);
        let mut i: usize = 0;
        while i < self.headers.len()
            invariant
                0 <= i <= self.headers@.len(),
                view == headers_view(self.headers@),
                forall|j: int|
                    0 <= j < i ==> str_to_lowercase(#[trigger] view[j].0) != "content-length"@,
            decreases self.headers@.len() - i,
        {
            let lk = lower_case(self.headers[i].0.as_str());
            if str_eq(lk.as_str(), "content-length") {
                assert(str_to_lowercase(view[i as int].0) == "content-length"@);
                return true;
            }
            i = i + 1;
        }
        false
    }

    /// The text of the request head, as `request_text` says.
    pub fn to_string(&self) -> (r: String)
        ensures
            r@ == request_text(self@),
    {
        let mut out: Vec<char> = Vec::new();
        push_str(&mut out, self.method.as_str());
        out.push(' ');
        match &self.resource {
            Resource::Path(p) => push_str(&mut out, p.as_str()),
        }
        out.push(' ');
        push_str(&mut out, self.version.as_str());
        out.push('\r');
        out.push('\n');
        push_headers(&mut out, &self.headers);
        if self.body.len() > 0 && !self.has_length_header() {
            push_str(&mut out, "Content-Length: ");
            push_radix(&mut out, self.body.len() as u64, 10);
            out.push('\r');
            out.push('\n');
        }
        out.push('\r');
        out.push('\n');
        assert(out@ =~= request_text(self@));
        string_from_chars(out)
    }

    /// The body, when it is not empty.
    pub fn js_get_body(&self) -> (r: Option<Vec<u8>>)
        ensures
            r is Some <==> self.body@.len() > 0,
            r matches Some(b) ==> b@ == self.body@,
    {
        if self.body.len() > 0 {
            Some(self.body.clone())
        } else {
            None
        }
    }

    /// Replaces the body as `BodyValue` says.
    pub fn js_set_body(&mut self, val: BodyValue)
        ensures
            final(self)@.body == match val {
                BodyValue::Text(s) => encode_utf8(s@),
                BodyValue::Bytes(b) => b@,
                BodyValue::Other => old(self)@.body,
            },
            final(self)@.method == old(self)@.method,
            final(self)@.version == old(self)@.version,
            final(self)@.resource == old(self)@.resource,
            final(self)@.headers == old(self)@.headers,
    {
        match val {
            BodyValue::Text(s) => {
                self.body = utf8_bytes(&s);
            },
            BodyValue::Bytes(b) => {
                self.body = b;
            },
            BodyValue::Other => {},
        }
    }

    /// A copy of the headers.
    pub fn js_get_headers(&self) -> (r: Vec<(String, String)>)
        ensures
            headers_view(r@) == headers_view(self.headers@),
    {
        clone_headers(&self.headers)
    }

    /// Replaces the headers by the given ones, each name in lower case.
    pub fn js_set_headers(&mut self, headers: Vec<(String, String)>)
        ensures
            final(self)@.headers == insert_lowercased(seq![], headers_view(headers@)),
            final(self)@.method == old(self)@.method,
            final(self)@.version == old(self)@.version,
            final(self)@.resource == old(self)@.resource,
            final(self)@.body == old(self)@.body,
    {
        let ghost given = headers_view(headers@);
        let mut hs: Vec<(String, String)> = Vec::new();
        let mut i: usize = 0;
        assert(headers_view(hs@) =~= seq![]);
        while i < headers.len()
            invariant
                0 <= i <= headers@.len(),
                given == headers_view(headers@),
                headers_view(hs@) == insert_lowercased(seq![], given.take(i as int)),
            decreases headers@.len() - i,
        {
            let k = lower_case(headers[i].0.as_str());
            let v = headers[i].1.clone();
            insert_header(&mut hs, k, v);
            assert(given.take(i + 1).drop_last() =~= given.take(i as int));
            i = i + 1;
        }
        assert(given.take(headers@.len() as int) =~= given);
        self.headers = hs;
    }

    /// The debug text of the method.
    pub fn js_get_method(&self) -> (r: String)
        ensures
            r@ == self.method.debug_text(),
    {
        owned(self.method.debug_str())
    }

    /// Sets the method named by the text once it is in upper case; other texts leave it.
    pub fn js_set_method(&mut self, method: &str)
        ensures
            final(self).method == match Method::parse_spec(str_to_uppercase(method@)) {
                Ok(m) => m,
                Err(_) => old(self).method,
            },
            is_ascii_chars(method@) ==> final(self).method == match Method::parse_spec(
                ascii_upper(method@),
            ) {
                Ok(m) => m,
                Err(_) => old(self).method,
            },
            final(self)@.version == old(self)@.version,
            final(self)@.resource == old(self)@.resource,
            final(self)@.headers == old(self)@.headers,
            final(self)@.body == old(self)@.body,
    {
        let upper = upper_case(method);
        if let Ok(m) = Method::from_str(upper.as_str()) {
            self.method = m;
        }
    }

    /// The text of the version.
    pub fn js_get_version(&self) -> (r: String)
        ensures
            r@ == self.version.text(),
    {
        owned(self.version.as_str())
    }

    /// Sets the version the text names; other texts leave it.
    pub fn js_set_version(&mut self, version: &str)
        ensures
            final(self).version == match Version::parse_spec(version@) {
                Ok(v) => v,
                Err(_) => old(self).version,
            },
            final(self)@.method == old(self)@.method,
            final(self)@.resource == old(self)@.resource,
            final(self)@.headers == old(self)@.headers,
            final(self)@.body == old(self)@.body,
    {
        if let Ok(v) = Version::from_str(version) {
            self.version = v;
        }
    }

    /// The requested path.
    pub fn js_get_uri(&self) -> (r: String)
        ensures
            r@ == self@.resource,
    {
        match &self.resource {
            Resource::Path(p) => p.clone(),
        }
    }

    /// Sets the requested path.
    pub fn js_set_uri(&mut self, uri: String)
        ensures
            final(self)@.resource == uri@,
            final(self)@.method == old(self)@.method,
            final(self)@.version == old(self)@.version,
            final(self)@.headers == old(self)@.headers,
            final(self)@.body == old(self)@.body,
    {
        self.resource = Resource::Path(uri);
    }

    /// The value of the header with exactly this name, if there is one.
    pub fn js_get_header(&self, key: &str) -> (r: Option<String>)
        ensures
            r is Some <==> header_get(self@.headers, key@) is Some,
            r matches Some(s) ==> header_get(self@.headers, key@) == Some(s@),
    {
        get_header(&self.headers, key)
    }

    /// Sets a header, its name in lower case.
    pub fn js_set_header(&mut self, key: &str, value: String)
        ensures
            final(self)@.headers == header_insert(old(self)@.headers, str_to_lowercase(key@), value@),
            is_ascii_chars(key@) ==> final(self)@.headers == header_insert(
                old(self)@.headers,
                ascii_lower(key@),
                value@,
            ),
            final(self)@.method == old(self)@.method,
            final(self)@.version == old(self)@.version,
            final(self)@.resource == old(self)@.resource,
            final(self)@.body == old(self)@.body,
    {
        let k = lower_case(key);
        insert_header(&mut self.headers, k, value);
    }

    /// The whole request as bytes: the UTF-8 text of its head, then its body.
    pub fn js_encode(&self) -> (r: Vec<u8>)
        ensures
            r@ == encode_utf8(request_text(self@)) + self@.body,
    {
        let head = self.to_string();
        let mut buf = utf8_bytes(&head);
        let mut i: usize = 0;
        let ghost start = buf@;
        while i < self.body.len()
            invariant
                0 <= i <= self.body@.len(),
                buf@ == start + self.body@.subrange(0, i as int),
            decreases self.body@.len() - i,
        {
            buf.push(self.body[i]);
            i = i + 1;
            assert(buf@ =~= start + self.body@.subrange(0, i as int));
        }
        assert(self.body@.subrange(0, self.body@.len() as int) =~= self.body@);
        buf
    }
}

} // verus!
