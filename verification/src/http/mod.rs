//! HTTP/1.x messages: methods, versions, header lists, line splitting and the
//! errors that parsing reports.
use vstd::prelude::*;
use vstd::utf8::*;
use vstd::string::*;
use crate::text::{
    parse_unsigned, parse_unsigned_range, string_from_chars,
    chars_of, find, find_char, is_ws, lemma_find_char_bounds, lemma_skip_non_ws_bounds,
    lemma_skip_ws_bounds, lemma_trim_end_len_bounds, skip_non_ws, skip_non_whitespace, skip_whitespace,
    skip_ws, str_eq, sub_chars, trim_end, trim_end_length, trim_start, utf8_str,
};

pub mod buffer;
pub mod chunk;
pub mod request;
pub mod response;
pub mod roundtrip;
pub mod server;

verus! {

/// HTTP method.
#[derive(Debug, Clone, Copy, PartialEq, Eq, Structural)]
pub enum Method {
    Get,
    Post,
    Head,
    Put,
    Delete,
    Connect,
    Options,
    Trace,
    Patch,
}

/// HTTP protocol version.
#[derive(Debug, Clone, Copy, PartialEq, Eq, Structural)]
pub enum Version {
    V1_0,
    V1_1,
}

/// What went wrong while parsing a message.
#[derive(Debug, Clone, Copy, PartialEq, Eq, Structural)]
pub enum ParseError {
    /// Any parse error not part of this list.
    OtherParseError,
    /// Invalid HTTP method.
    InvalidMethod,
    /// Invalid URL.
    InvalidUrl,
    /// Invalid HTTP version.
    InvalidVersion,
    /// Invalid request line.
    InvalidRequestLine,
    /// Invalid status code.
    InvalidStatusCode,
    /// Invalid status line.
    InvalidStatusLine,
    /// Invalid header section.
    InvalidHeaders,
    /// Invalid chunk data.
    InvalidChunk,
    /// More input is needed.
    Pending,
}

/// A header list as plain text: pairs of name and value.
pub type HeaderSeq = Seq<(Seq<char>, Seq<char>)>;

/// The text of a header list held as strings.
pub open spec fn headers_view(hs: Seq<(String, String)>) -> HeaderSeq {
    hs.map_values(|p: (String, String)| (p.0@, p.1@))
}

/// The position of the first header named `k` at or after `j`, or the length.
pub open spec fn header_index(hs: HeaderSeq, k: Seq<char>, j: int) -> int
    decreases hs.len() - j,
{
    if 0 <= j < hs.len() && hs[j].0 != k {
        header_index(hs, k, j + 1)
    } else {
        j
    }
}

/// Setting a header the way a map does: the value of an existing name is replaced in
/// place, a new name is added at the end.
pub open spec fn header_insert(hs: HeaderSeq, k: Seq<char>, v: Seq<char>) -> HeaderSeq {
    let i = header_index(hs, k, 0);
    if i < hs.len() {
        hs.update(i, (k, v))
    } else {
        hs.push((k, v))
    }
}

/// The value of the header named `k`, if there is one.
pub open spec fn header_get(hs: HeaderSeq, k: Seq<char>) -> Option<Seq<char>> {
    let i = header_index(hs, k, 0);
    if i < hs.len() {
        Some(hs[i].1)
    } else {
        None
    }
}

/// No header name occurs twice.
pub open spec fn headers_distinct(hs: HeaderSeq) -> bool {
    forall|i: int, j: int| 0 <= i < hs.len() && 0 <= j < hs.len() && i != j ==> hs[i].0 != hs[j].0
}

pub proof fn lemma_header_index(hs: HeaderSeq, k: Seq<char>, j: int)
    requires
        0 <= j <= hs.len(),
    ensures
        j <= header_index(hs, k, j) <= hs.len(),
        forall|m: int| j <= m < header_index(hs, k, j) ==> #[trigger] hs[m].0 != k,
        header_index(hs, k, j) < hs.len() ==> hs[header_index(hs, k, j)].0 == k,
    decreases hs.len() - j,
{
    if j < hs.len() && hs[j].0 != k {
        lemma_header_index(hs, k, j + 1);
    }
}

/// Inserting keeps every name distinct.
pub proof fn lemma_header_insert_distinct(hs: HeaderSeq, k: Seq<char>, v: Seq<char>)
    requires
        headers_distinct(hs),
    ensures
        headers_distinct(header_insert(hs, k, v)),
{
    lemma_header_index(hs, k, 0);
}

/// A header set by `header_insert` is read back by `header_get`, and the others are
/// unchanged.
pub proof fn lemma_header_insert_get(hs: HeaderSeq, k: Seq<char>, v: Seq<char>, k2: Seq<char>)
    requires
        headers_distinct(hs),
    ensures
        header_get(header_insert(hs, k, v), k) == Some(v),
        k2 != k ==> header_get(header_insert(hs, k, v), k2) == header_get(hs, k2),
{
    let hs2 = header_insert(hs, k, v);
    let i0 = header_index(hs, k, 0);
    lemma_header_index(hs, k, 0);
    lemma_header_index(hs2, k, 0);
    lemma_header_insert_distinct(hs, k, v);
    let j = if i0 < hs.len() { i0 } else { hs.len() as int };
    assert(hs2[j] == (k, v));
    let idx = header_index(hs2, k, 0);
    assert(idx <= j);
    assert(idx == j);
    if k2 != k {
        lemma_header_index(hs, k2, 0);
        lemma_header_index(hs2, k2, 0);
        let a = header_index(hs, k2, 0);
        let b = header_index(hs2, k2, 0);
        assert(forall|m: int| 0 <= m < hs.len() && m != j ==> hs2[m] == hs[m]);
        if a < hs.len() {
            assert(a != j);
            assert(hs2[a].0 == k2);
            assert(b <= a);
            if b < a {
                assert(hs2[b].0 == k2);
                assert(b != j);
                assert(hs[b].0 == k2);
                assert(false);
            }
        } else {
            if b < hs2.len() {
                assert(hs2[b].0 == k2);
                assert(b != j);
                assert(hs[b].0 == k2);
                assert(false);
            }
        }
    }
}

/// Sets header `k` to `v` in a header list, as `header_insert` says.
pub fn insert_header(hs: &mut Vec<(String, String)>, k: String, v: String)
    ensures
        headers_view(final(hs)@) == header_insert(headers_view(old(hs)@), k@, v@),
{
    let ghost old_view = headers_view(hs@);
    let mut i: usize = 0;
    while i < hs.len()
        invariant
            0 <= i <= hs@.len(),
            headers_view(hs@) == old_view,
            old_view == headers_view(old(hs)@),
            header_index(old_view, k@, i as int) == header_index(old_view, k@, 0),
        decreases hs@.len() - i,
    {
        if hs[i].0 == k {
            assert(old_view[i as int].0 == k@);
            assert(header_index(old_view, k@, i as int) == i as int);
            let ghost kv = k@;
            let ghost vv = v@;
            hs.set(i, (k, v));
            assert(headers_view(hs@) =~= old_view.update(i as int, (kv, vv)));
            assert(header_insert(old_view, kv, vv) == old_view.update(i as int, (kv, vv)));
            return;
        }
        assert(old_view[i as int].0 != k@);
        i = i + 1;
    }
    assert(header_index(old_view, k@, i as int) == i as int);
    hs.push((k, v));
    assert(headers_view(hs@) =~= old_view.push((k@, v@)));
}

/// The value of header `k`, if there is one.
pub fn get_header(hs: &Vec<(String, String)>, k: &str) -> (r: Option<String>)
    ensures
        r is Some <==> header_get(headers_view(hs@), k@) is Some,
        r matches Some(s) ==> header_get(headers_view(hs@), k@) == Some(s@),
{
    let ghost view = headers_view(hs@);
    let mut i: usize = 0;
    while i < hs.len()
        invariant
            0 <= i <= hs@.len(),
            view == headers_view(hs@),
            header_index(view, k@, i as int) == header_index(view, k@, 0),
        decreases hs@.len() - i,
    {
        if str_eq(hs[i].0.as_str(), k) {
            assert(view[i as int].0 == k@);
            assert(header_index(view, k@, i as int) == i as int);
            return Some(hs[i].1.clone());
        }
        assert(view[i as int].0 != k@);
        i = i + 1;
    }
    None
}

/// The name of a result that `str::to_lowercase` gives: the full Unicode lower-case
/// mapping of the text.
pub uninterp spec fn str_to_lowercase(s: Seq<char>) -> Seq<char>;

/// The name of a result that `str::to_uppercase` gives: the full Unicode upper-case
/// mapping of the text.
pub uninterp spec fn str_to_uppercase(s: Seq<char>) -> Seq<char>;

/// The ASCII lower-case mapping: `A` to `Z` become `a` to `z`, every other character stays.
pub open spec fn ascii_lower(s: Seq<char>) -> Seq<char> {
    Seq::new(
        s.len(),
        |i: int|
            if 'A' <= s[i] && s[i] <= 'Z' {
                ((s[i] as u32) + 32) as char
            } else {
                s[i]
            },
    )
}

/// The ASCII upper-case mapping: `a` to `z` become `A` to `Z`, every other character stays.
pub open spec fn ascii_upper(s: Seq<char>) -> Seq<char> {
    Seq::new(
        s.len(),
        |i: int|
            if 'a' <= s[i] && s[i] <= 'z' {
                ((s[i] as u32) - 32) as char
            } else {
                s[i]
            },
    )
}

/// `str::to_lowercase`; what it returns is named `str_to_lowercase` of the text. On ASCII
/// text the Unicode lower-case mapping is the ASCII one, which it states.
#[verifier::external_body]
fn to_lowercase(s: &str) -> (r: String)
    ensures
        r@ == str_to_lowercase(s@),
        is_ascii_chars(s@) ==> r@ == ascii_lower(s@),
{
    s.to_lowercase()
}

/// `str::to_uppercase`; what it returns is named `str_to_uppercase` of the text. On ASCII
/// text the Unicode upper-case mapping is the ASCII one, which it states.
#[verifier::external_body]
fn to_uppercase(s: &str) -> (r: String)
    ensures
        r@ == str_to_uppercase(s@),
        is_ascii_chars(s@) ==> r@ == ascii_upper(s@),
{
    s.to_uppercase()
}

/// The lower-case form in which header names are stored and compared: the Unicode
/// lower-case mapping of the text, which on ASCII text is the ASCII one.
pub fn lower_case(s: &str) -> (r: String)
    ensures
        r@ == str_to_lowercase(s@),
        is_ascii_chars(s@) ==> r@ == ascii_lower(s@),
{
    to_lowercase(s)
}

/// The upper-case form in which a method name is read: the Unicode upper-case mapping of
/// the text, which on ASCII text is the ASCII one.
pub fn upper_case(s: &str) -> (r: String)
    ensures
        r@ == str_to_uppercase(s@),
        is_ascii_chars(s@) ==> r@ == ascii_upper(s@),
{
    to_uppercase(s)
}

impl Method {
    /// The upper-case text by which a method is written on the request line.
    pub open spec fn text(self) -> Seq<char> {
        match self {
            Method::Get => "GET"@,
            Method::Post => "POST"@,
            Method::Head => "HEAD"@,
            Method::Put => "PUT"@,
            Method::Delete => "DELETE"@,
            Method::Connect => "CONNECT"@,
            Method::Options => "OPTIONS"@,
            Method::Trace => "TRACE"@,
            Method::Patch => "PATCH"@,
        }
    }

    /// The debug text of a method: its name with only the first letter in upper case.
    pub open spec fn debug_text(self) -> Seq<char> {
        match self {
            Method::Get => "Get"@,
            Method::Post => "Post"@,
            Method::Head => "Head"@,
            Method::Put => "Put"@,
            Method::Delete => "Delete"@,
            Method::Connect => "Connect"@,
            Method::Options => "Options"@,
            Method::Trace => "Trace"@,
            Method::Patch => "Patch"@,
        }
    }

    /// Which method a text names, if any.
    pub open spec fn parse_spec(s: Seq<char>) -> Result<Method, ParseError> {
        if s == "GET"@ {
            Ok(Method::Get)
        } else if s == "POST"@ {
            Ok(Method::Post)
        } else if s == "PUT"@ {
            Ok(Method::Put)
        } else if s == "DELETE"@ {
            Ok(Method::Delete)
        } else if s == "CONNECT"@ {
            Ok(Method::Connect)
        } else if s == "HEAD"@ {
            Ok(Method::Head)
        } else if s == "OPTIONS"@ {
            Ok(Method::Options)
        } else if s == "TRACE"@ {
            Ok(Method::Trace)
        } else if s == "PATCH"@ {
            Ok(Method::Patch)
        } else {
            Err(ParseError::InvalidMethod)
        }
    }

    /// Reads a method from its upper-case text.
    pub fn from_str(s: &str) -> (r: Result<Method, ParseError>)
        ensures
            r == Method::parse_spec(s@),
    {
        if str_eq(s, "GET") {
            Ok(Method::Get)
        } else if str_eq(s, "POST") {
            Ok(Method::Post)
        } else if str_eq(s, "PUT") {
            Ok(Method::Put)
        } else if str_eq(s, "DELETE") {
            Ok(Method::Delete)
        } else if str_eq(s, "CONNECT") {
            Ok(Method::Connect)
        } else if str_eq(s, "HEAD") {
            Ok(Method::Head)
        } else if str_eq(s, "OPTIONS") {
            Ok(Method::Options)
        } else if str_eq(s, "TRACE") {
            Ok(Method::Trace)
        } else if str_eq(s, "PATCH") {
            Ok(Method::Patch)
        } else {
            Err(ParseError::InvalidMethod)
        }
    }

    /// The upper-case text of a method, as written on the request line.
    pub fn as_str(&self) -> (r: &'static str)
        ensures
            r@ == self.text(),
    {
        match self {
            Method::Get => "GET",
            Method::Post => "POST",
            Method::Head => "HEAD",
            Method::Put => "PUT",
            Method::Delete => "DELETE",
            Method::Connect => "CONNECT",
            Method::Options => "OPTIONS",
            Method::Trace => "TRACE",
            Method::Patch => "PATCH",
        }
    }

    /// The debug text of a method.
    pub fn debug_str(&self) -> (r: &'static str)
        ensures
            r@ == self.debug_text(),
    {
        match self {
            Method::Get => "Get",
            Method::Post => "Post",
            Method::Head => "Head",
            Method::Put => "Put",
            Method::Delete => "Delete",
            Method::Connect => "Connect",
            Method::Options => "Options",
            Method::Trace => "Trace",
            Method::Patch => "Patch",
        }
    }

    /// Reading back the text of a method gives the same method.
    pub proof fn lemma_text_roundtrip(m: Method)
        ensures
            Method::parse_spec(m.text()) == Ok::<Method, ParseError>(m),
    {
        reveal_strlit("GET");
        reveal_strlit("POST");
        reveal_strlit("HEAD");
        reveal_strlit("PUT");
        reveal_strlit("DELETE");
        reveal_strlit("CONNECT");
        reveal_strlit("OPTIONS");
        reveal_strlit("TRACE");
        reveal_strlit("PATCH");
        match m {
            Method::Get => {
            },
            Method::Post => {
                assert("POST"@.len() == 4);
                assert("GET"@.len() == 3);
            },
            Method::Head => {
                assert("HEAD"@.len() == 4);
                assert("GET"@.len() == 3);
                assert("HEAD"@[0] == 'H');
                assert("POST"@[0] == 'P');
                assert("HEAD"@.len() == 4);
                assert("PUT"@.len() == 3);
                assert("HEAD"@.len() == 4);
                assert("DELETE"@.len() == 6);
                assert("HEAD"@.len() == 4);
                assert("CONNECT"@.len() == 7);
            },
            Method::Put => {
                assert("PUT"@[0] == 'P');
                assert("GET"@[0] == 'G');
                assert("PUT"@.len() == 3);
                assert("POST"@.len() == 4);
            },
            Method::Delete => {
                assert("DELETE"@.len() == 6);
                assert("GET"@.len() == 3);
                assert("DELETE"@.len() == 6);
                assert("POST"@.len() == 4);
                assert("DELETE"@.len() == 6);
                assert("PUT"@.len() == 3);
            },
            Method::Connect => {
                assert("CONNECT"@.len() == 7);
                assert("GET"@.len() == 3);
                assert("CONNECT"@.len() == 7);
                assert("POST"@.len() == 4);
                assert("CONNECT"@.len() == 7);
                assert("PUT"@.len() == 3);
                assert("CONNECT"@.len() == 7);
                assert("DELETE"@.len() == 6);
            },
            Method::Options => {
                assert("OPTIONS"@.len() == 7);
                assert("GET"@.len() == 3);
                assert("OPTIONS"@.len() == 7);
                assert("POST"@.len() == 4);
                assert("OPTIONS"@.len() == 7);
                assert("PUT"@.len() == 3);
                assert("OPTIONS"@.len() == 7);
                assert("DELETE"@.len() == 6);
                assert("OPTIONS"@[0] == 'O');
                assert("CONNECT"@[0] == 'C');
                assert("OPTIONS"@.len() == 7);
                assert("HEAD"@.len() == 4);
            },
            Method::Trace => {
                assert("TRACE"@.len() == 5);
                assert("GET"@.len() == 3);
                assert("TRACE"@.len() == 5);
                assert("POST"@.len() == 4);
                assert("TRACE"@.len() == 5);
                assert("PUT"@.len() == 3);
                assert("TRACE"@.len() == 5);
                assert("DELETE"@.len() == 6);
                assert("TRACE"@.len() == 5);
                assert("CONNECT"@.len() == 7);
                assert("TRACE"@.len() == 5);
                assert("HEAD"@.len() == 4);
                assert("TRACE"@.len() == 5);
                assert("OPTIONS"@.len() == 7);
            },
            Method::Patch => {
                assert("PATCH"@.len() == 5);
                assert("GET"@.len() == 3);
                assert("PATCH"@.len() == 5);
                assert("POST"@.len() == 4);
                assert("PATCH"@.len() == 5);
                assert("PUT"@.len() == 3);
                assert("PATCH"@.len() == 5);
                assert("DELETE"@.len() == 6);
                assert("PATCH"@.len() == 5);
                assert("CONNECT"@.len() == 7);
                assert("PATCH"@.len() == 5);
                assert("HEAD"@.len() == 4);
                assert("PATCH"@.len() == 5);
                assert("OPTIONS"@.len() == 7);
                assert("PATCH"@[0] == 'P');
                assert("TRACE"@[0] == 'T');
            },
        }
    }

    /// A method is written on the request line as its name in capitals, and that text
    /// reads back as the same method: `Put` is written `PUT` and `Patch` is written `PATCH`.
    pub proof fn lemma_text_is_upper_name(m: Method)
        ensures
            m.text() == ascii_upper(m.debug_text()),
            Method::parse_spec(ascii_upper(m.debug_text())) == Ok::<Method, ParseError>(m),
    {
        reveal_strlit("GET");
        reveal_strlit("Get");
        reveal_strlit("POST");
        reveal_strlit("Post");
        reveal_strlit("HEAD");
        reveal_strlit("Head");
        reveal_strlit("PUT");
        reveal_strlit("Put");
        reveal_strlit("DELETE");
        reveal_strlit("Delete");
        reveal_strlit("CONNECT");
        reveal_strlit("Connect");
        reveal_strlit("OPTIONS");
        reveal_strlit("Options");
        reveal_strlit("TRACE");
        reveal_strlit("Trace");
        reveal_strlit("PATCH");
        reveal_strlit("Patch");
        Method::lemma_text_roundtrip(m);
        match m {
            Method::Get => {
                assert(m.text() =~= ascii_upper(m.debug_text()));
            },
            Method::Post => {
                assert(m.text() =~= ascii_upper(m.debug_text()));
            },
            Method::Head => {
                assert(m.text() =~= ascii_upper(m.debug_text()));
            },
            Method::Put => {
                assert(m.text() =~= ascii_upper(m.debug_text()));
            },
            Method::Delete => {
                assert(m.text() =~= ascii_upper(m.debug_text()));
            },
            Method::Connect => {
                assert(m.text() =~= ascii_upper(m.debug_text()));
            },
            Method::Options => {
                assert(m.text() =~= ascii_upper(m.debug_text()));
            },
            Method::Trace => {
                assert(m.text() =~= ascii_upper(m.debug_text()));
            },
            Method::Patch => {
                assert(m.text() =~= ascii_upper(m.debug_text()));
            },
        }
    }
}

impl Version {
    /// The text of a version.
    pub open spec fn text(self) -> Seq<char> {
        match self {
            Version::V1_0 => "HTTP/1.0"@,
            Version::V1_1 => "HTTP/1.1"@,
        }
    }

    /// Which version a text names, if any.
    pub open spec fn parse_spec(s: Seq<char>) -> Result<Version, ParseError> {
        if s == "HTTP/1.0"@ {
            Ok(Version::V1_0)
        } else if s == "HTTP/1.1"@ {
            Ok(Version::V1_1)
        } else {
            Err(ParseError::InvalidVersion)
        }
    }

    /// Reads a version from its text.
    pub fn from_str(s: &str) -> (r: Result<Version, ParseError>)
        ensures
            r == Version::parse_spec(s@),
    {
        if str_eq(s, "HTTP/1.0") {
            Ok(Version::V1_0)
        } else if str_eq(s, "HTTP/1.1") {
            Ok(Version::V1_1)
        } else {
            Err(ParseError::InvalidVersion)
        }
    }

    /// The text of a version.
    pub fn as_str(&self) -> (r: &'static str)
        ensures
            r@ == self.text(),
    {
        match self {
            Version::V1_0 => "HTTP/1.0",
            Version::V1_1 => "HTTP/1.1",
        }
    }

    /// Reading back the text of a version gives the same version.
    pub proof fn lemma_text_roundtrip(v: Version)
        ensures
            Version::parse_spec(v.text()) == Ok::<Version, ParseError>(v),
    {
        reveal_strlit("HTTP/1.0");
        reveal_strlit("HTTP/1.1");
        if v == Version::V1_1 {
            assert("HTTP/1.1"@[7] != "HTTP/1.0"@[7]);
            assert("HTTP/1.1"@ != "HTTP/1.0"@);
        }
    }
}

/// The index just past the end of the line that starts at `p`: past the first `\n`
/// at or after `p`, or the end of the input.
pub open spec fn line_end(s: Seq<u8>, p: int) -> int
    decreases s.len() - p,
{
    if 0 <= p < s.len() {
        if s[p] == 10 {
            p + 1
        } else {
            line_end(s, p + 1)
        }
    } else {
        p
    }
}

pub proof fn lemma_line_end(s: Seq<u8>, p: int)
    requires
        0 <= p < s.len(),
    ensures
        p < line_end(s, p) <= s.len(),
        forall|j: int| p <= j < line_end(s, p) - 1 ==> #[trigger] s[j] != 10,
        s[line_end(s, p) - 1] == 10 || line_end(s, p) == s.len(),
    decreases s.len() - p,
{
    if s[p] != 10 {
        if p + 1 < s.len() {
            lemma_line_end(s, p + 1);
        } else {
            assert(line_end(s, p + 1) == p + 1);
        }
    }
}

/// The bytes of the line that starts at `p`, its `\n` included.
pub open spec fn line_bytes(s: Seq<u8>, p: int) -> Seq<u8> {
    s.subrange(p, line_end(s, p))
}

/// The text of the line that starts at `p`, without trailing white space.
pub open spec fn line_text(s: Seq<u8>, p: int) -> Seq<char> {
    trim_end(decode_utf8(line_bytes(s, p)))
}

/// Finds the end of the line that starts at `p`.
pub fn find_line_end(s: &[u8], p: usize) -> (r: usize)
    requires
        p < s@.len(),
    ensures
        r == line_end(s@, p as int),
{
    let mut j = p;
    while j < s.len() && s[j] != 10
        invariant
            p <= j <= s@.len(),
            line_end(s@, j as int) == line_end(s@, p as int),
        decreases s@.len() - j,
    {
        j = j + 1;
    }
    if j < s.len() {
        j + 1
    } else {
        j
    }
}

/// Copies `s[a..b]` into a new vector.
pub fn copy_range(s: &[u8], a: usize, b: usize) -> (r: Vec<u8>)
    requires
        a <= b <= s@.len(),
    ensures
        r@ == s@.subrange(a as int, b as int),
{
    let mut out: Vec<u8> = Vec::new();
    let mut j = a;
    while j < b
        invariant
            a <= j <= b <= s@.len(),
            out@ == s@.subrange(a as int, j as int),
        decreases b - j,
    {
        out.push(s[j]);
        j = j + 1;
        assert(out@ =~= s@.subrange(a as int, j as int));
    }
    out
}

/// Reads the line that starts at `p` as `BufRead::read_line` does, then drops trailing
/// white space: `None` when the line is not well-formed UTF-8; otherwise its text and
/// the index just past it.
pub fn read_trimmed_line(s: &[u8], p: usize) -> (r: Option<(Vec<char>, usize)>)
    requires
        p < s@.len(),
    ensures
        r is Some <==> valid_utf8(line_bytes(s@, p as int)),
        r matches Some((t, e)) ==> t@ == line_text(s@, p as int) && e == line_end(s@, p as int),
{
    proof {
        lemma_line_end(s@, p as int);
    }
    let e = find_line_end(s, p);
    let bytes = copy_range(s, p, e);
    match utf8_str(bytes.as_slice()) {
        None => None,
        Some(text) => {
            let cs = chars_of(text);
            let n = trim_end_length(&cs, cs.len());
            proof {
                lemma_trim_end_len_bounds(cs@, cs@.len() as int);
            }
            let t = sub_chars(&cs, 0, n);
            Some((t, e))
        },
    }
}

/// The name of a header line: the text before its first `:`.
pub open spec fn header_key(t: Seq<char>) -> Seq<char> {
    t.subrange(0, find_char(t, 0, ':'))
}

/// The value of a header line: the text between its first and second `:`, without
/// leading white space.
pub open spec fn header_value(t: Seq<char>) -> Seq<char> {
    let c = find_char(t, 0, ':');
    if c < t.len() {
        trim_start(t.subrange(c + 1, find_char(t, c + 1, ':')))
    } else {
        seq![]
    }
}

/// Splits a header line into its name and value.
pub fn split_header_line(t: &Vec<char>) -> (r: (Vec<char>, Vec<char>))
    ensures
        r.0@ == header_key(t@),
        r.1@ == header_value(t@),
{
    let c = find(t, 0, ':');
    proof {
        lemma_find_char_bounds(t@, 0, ':');
    }
    let key = sub_chars(t, 0, c);
    if c < t.len() {
        let d = find(t, c + 1, ':');
        proof {
            lemma_find_char_bounds(t@, c + 1, ':');
        }
        let second = sub_chars(t, c + 1, d);
        let s = skip_whitespace(&second, 0);
        proof {
            lemma_skip_ws_bounds(second@, 0);
        }
        let value = sub_chars(&second, s, second.len());
        (key, value)
    } else {
        (key, Vec::new())
    }
}

/// The positions of the first three words of a line: each is the start and end of a
/// maximal run of characters that are not white space, as `split_whitespace` yields them.
pub open spec fn word_bounds(t: Seq<char>) -> (int, int, int, int, int, int) {
    let a0 = skip_ws(t, 0);
    let a1 = skip_non_ws(t, a0);
    let b0 = skip_ws(t, a1);
    let b1 = skip_non_ws(t, b0);
    let c0 = skip_ws(t, b1);
    let c1 = skip_non_ws(t, c0);
    (a0, a1, b0, b1, c0, c1)
}

/// Finds the first three words of a line.
pub fn first_words(t: &Vec<char>) -> (r: (usize, usize, usize, usize, usize, usize))
    ensures
        r.0 == word_bounds(t@).0,
        r.1 == word_bounds(t@).1,
        r.2 == word_bounds(t@).2,
        r.3 == word_bounds(t@).3,
        r.4 == word_bounds(t@).4,
        r.5 == word_bounds(t@).5,
        r.0 <= r.1 <= r.2 <= r.3 <= r.4 <= r.5 <= t@.len(),
{
    let a0 = skip_whitespace(t, 0);
    proof { lemma_skip_ws_bounds(t@, 0); }
    let a1 = skip_non_whitespace(t, a0);
    proof { lemma_skip_non_ws_bounds(t@, a0 as int); }
    let b0 = skip_whitespace(t, a1);
    proof { lemma_skip_ws_bounds(t@, a1 as int); }
    let b1 = skip_non_whitespace(t, b0);
    proof { lemma_skip_non_ws_bounds(t@, b0 as int); }
    let c0 = skip_whitespace(t, b1);
    proof { lemma_skip_ws_bounds(t@, b1 as int); }
    let c1 = skip_non_whitespace(t, c0);
    proof { lemma_skip_non_ws_bounds(t@, c0 as int); }
    (a0, a1, b0, b1, c0, c1)
}

/// Which framing of the body a header section announces.
#[derive(Debug, Clone, Copy, PartialEq, Eq, Structural)]
pub enum BodyLen {
    /// A body of this many bytes follows.
    Length(usize),
    /// The body follows in chunks.
    Chunked,
}

/// Reads the header section that starts at `p`, one line at a time, adding each header
/// to `hs`: it ends at the first empty line, and the result is the headers, the body
/// framing and the index just past that empty line. A `Content-Length` header (its name
/// compared after `to_lowercase`) sets the length, or fails the parse when its value is no
/// `usize`; when `chunked_aware` holds, `Transfer-Encoding: chunked` selects chunks.
/// A line without `:` is an invalid header; input that ends before the empty line is
/// pending.
pub open spec fn headers_spec(s: Seq<u8>, p: int, hs: HeaderSeq, bl: BodyLen, chunked_aware: bool) -> Result<
    (HeaderSeq, BodyLen, int),
    ParseError,
>
    decreases s.len() - p,
{
    if !(0 <= p < s.len()) {
        Err(ParseError::Pending)
    } else if !valid_utf8(line_bytes(s, p)) {
        Err(ParseError::OtherParseError)
    } else {
        proof {
            lemma_line_end(s, p);
        }
        let t = line_text(s, p);
        let np = line_end(s, p);
        if t.len() == 0 {
            Ok((hs, bl, np))
        } else if find_char(t, 0, ':') >= t.len() {
            Err(ParseError::InvalidHeaders)
        } else {
            let k = header_key(t);
            let v = header_value(t);
            let lk = str_to_lowercase(k);
            let hs2 = header_insert(hs, k, v);
            if lk == "content-length"@ {
                match parse_unsigned(v, 10, usize::MAX as int) {
                    None => Err(ParseError::InvalidHeaders),
                    Some(n) => headers_spec(s, np, hs2, BodyLen::Length(n as usize), chunked_aware),
                }
            } else if chunked_aware && lk == "transfer-encoding"@ && v == "chunked"@ {
                headers_spec(s, np, hs2, BodyLen::Chunked, chunked_aware)
            } else {
                headers_spec(s, np, hs2, bl, chunked_aware)
            }
        }
    }
}

/// Reads a header section as `headers_spec` says, from an empty header list and a body
/// length of zero.
pub fn parse_header_lines(s: &[u8], p: usize, chunked_aware: bool) -> (r: Result<
    (Vec<(String, String)>, BodyLen, usize),
    ParseError,
>)
    ensures
        match headers_spec(s@, p as int, seq![], BodyLen::Length(0), chunked_aware) {
            Ok((hs, bl, e)) => r matches Ok((h2, bl2, e2)) && headers_view(h2@) == hs && bl2 == bl
                && e2 == e,
            Err(err) => r == Err::<(Vec<(String, String)>, BodyLen, usize), ParseError>(err),
        },
{
    let ghost goal = headers_spec(s@, p as int, seq![], BodyLen::Length(0), chunked_aware);
    let mut headers: Vec<(String, String)> = Vec::new();
    let mut bl = BodyLen::Length(0);
    let mut pos = p;
    assert(headers_view(headers@) =~= seq![]);
    loop
        invariant
            headers_spec(s@, pos as int, headers_view(headers@), bl, chunked_aware) == goal,
            goal == headers_spec(s@, p as int, seq![], BodyLen::Length(0), chunked_aware),
            p <= pos,
        decreases s@.len() - pos,
    {
        if pos >= s.len() {
            return Err(ParseError::Pending);
        }
        proof {
            lemma_line_end(s@, pos as int);
        }
        let ghost old_hv = headers_view(headers@);
        let ghost old_bl = bl;
        match read_trimmed_line(s, pos) {
            None => {
                return Err(ParseError::OtherParseError);
            },
            Some((t, e)) => {
                assert(headers_spec(s@, pos as int, old_hv, old_bl, chunked_aware) == {
                    let tt = line_text(s@, pos as int);
                    let np = line_end(s@, pos as int);
                    if tt.len() == 0 {
                        Ok((old_hv, old_bl, np))
                    } else if find_char(tt, 0, ':') >= tt.len() {
                        Err(ParseError::InvalidHeaders)
                    } else {
                        let k = header_key(tt);
                        let v = header_value(tt);
                        let lk = str_to_lowercase(k);
                        let hs2 = header_insert(old_hv, k, v);
                        if lk == "content-length"@ {
                            match parse_unsigned(v, 10, usize::MAX as int) {
                                None => Err(ParseError::InvalidHeaders),
                                Some(n) => headers_spec(
                                    s@,
                                    np,
                                    hs2,
                                    BodyLen::Length(n as usize),
                                    chunked_aware,
                                ),
                            }
                        } else if chunked_aware && lk == "transfer-encoding"@ && v == "chunked"@ {
                            headers_spec(s@, np, hs2, BodyLen::Chunked, chunked_aware)
                        } else {
                            headers_spec(s@, np, hs2, old_bl, chunked_aware)
                        }
                    }
                });
                if t.len() == 0 {
                    return Ok((headers, bl, e));
                }
                let c = find(&t, 0, ':');
                if c >= t.len() {
                    return Err(ParseError::InvalidHeaders);
                }
                let (kc, vc) = split_header_line(&t);
                let key = string_from_chars(kc);
                let lk = lower_case(key.as_str());
                if str_eq(lk.as_str(), "content-length") {
                    let max_len: u64 = usize::MAX as u64;
                    assert(max_len as int == usize::MAX as int);
                    match parse_unsigned_range(&vc, 0, vc.len(), 10, max_len) {
                        None => {
                            assert(vc@.subrange(0, vc@.len() as int) =~= vc@);
                            return Err(ParseError::InvalidHeaders);
                        },
                        Some(n) => {
                            assert(vc@.subrange(0, vc@.len() as int) =~= vc@);
                            assert(n as int <= usize::MAX);
                            assert(parse_unsigned(vc@, 10, usize::MAX as int) == Some(n as int));
                            bl = BodyLen::Length(n as usize);
                        },
                    }
                    let value = string_from_chars(vc);
                    insert_header(&mut headers, key, value);
                    assert(lk@ == "content-length"@);
                    assert(headers_spec(s@, e as int, headers_view(headers@), bl, chunked_aware)
                        == headers_spec(s@, pos as int, old_hv, old_bl, chunked_aware));
                } else {
                    let value = string_from_chars(vc);
                    if chunked_aware && str_eq(lk.as_str(), "transfer-encoding") && str_eq(
                        value.as_str(),
                        "chunked",
                    ) {
                        bl = BodyLen::Chunked;
                    }
                    insert_header(&mut headers, key, value);
                }
                pos = e;
            },
        }
    }
}

/// Appends the characters of a string.
pub fn push_str(out: &mut Vec<char>, s: &str)
    ensures
        final(out)@ == old(out)@ + s@,
{
    let cs = chars_of(s);
    let mut i: usize = 0;
    while i < cs.len()
        invariant
            0 <= i <= cs@.len(),
            cs@ == s@,
            out@ == old(out)@ + cs@.subrange(0, i as int),
        decreases cs@.len() - i,
    {
        out.push(cs[i]);
        i = i + 1;
        assert(out@ =~= old(out)@ + cs@.subrange(0, i as int));
    }
    assert(cs@.subrange(0, cs@.len() as int) =~= cs@);
}

/// A line break.
pub open spec fn crlf() -> Seq<char> {
    seq!['\r', '\n']
}

/// The header lines of a message: each name, `: `, its value and a line break.
pub open spec fn headers_text(hs: HeaderSeq) -> Seq<char>
    decreases hs.len(),
{
    if hs.len() == 0 {
        seq![]
    } else {
        headers_text(hs.drop_last()) + hs.last().0 + seq![':', ' '] + hs.last().1 + crlf()
    }
}

/// Appends the header lines of a message.
pub fn push_headers(out: &mut Vec<char>, hs: &Vec<(String, String)>)
    ensures
        final(out)@ == old(out)@ + headers_text(headers_view(hs@)),
{
    let ghost view = headers_view(hs@);
    let mut i: usize = 0;
    while i < hs.len()
        invariant
            0 <= i <= hs@.len(),
            view == headers_view(hs@),
            out@ == old(out)@ + headers_text(view.take(i as int)),
        decreases hs@.len() - i,
    {
        let ghost before = out@;
        push_str(out, hs[i].0.as_str());
        out.push(':');
        out.push(' ');
        push_str(out, hs[i].1.as_str());
        out.push('\r');
        out.push('\n');
        assert(view.take(i + 1).drop_last() =~= view.take(i as int));
        assert(view.take(i + 1).last() == view[i as int]);
        assert(out@ =~= before + view[i as int].0 + seq![':', ' '] + view[i as int].1 + crlf());
        i = i + 1;
    }
    assert(view.take(hs@.len() as int) =~= view);
}

/// A header section that parses ends inside the input.
pub proof fn lemma_headers_spec_end(s: Seq<u8>, p: int, hs: HeaderSeq, bl: BodyLen, ca: bool)
    requires
        headers_spec(s, p, hs, bl, ca) is Ok,
    ensures
        p < headers_spec(s, p, hs, bl, ca)->Ok_0.2 <= s.len(),
    decreases s.len() - p,
{
    lemma_line_end(s, p);
    let t = line_text(s, p);
    let np = line_end(s, p);
    if t.len() != 0 {
        let k = header_key(t);
        let v = header_value(t);
        let hs2 = header_insert(hs, k, v);
        let lk = str_to_lowercase(k);
        if lk == "content-length"@ {
            match parse_unsigned(v, 10, usize::MAX as int) {
                None => {},
                Some(n) => lemma_headers_spec_end(s, np, hs2, BodyLen::Length(n as usize), ca),
            }
        } else if ca && lk == "transfer-encoding"@ && v == "chunked"@ {
            lemma_headers_spec_end(s, np, hs2, BodyLen::Chunked, ca);
        } else {
            lemma_headers_spec_end(s, np, hs2, bl, ca);
        }
    }
}

/// A header section that parses gives distinct header names, when those read before were.
pub proof fn lemma_headers_spec_distinct(s: Seq<u8>, p: int, hs: HeaderSeq, bl: BodyLen, ca: bool)
    requires
        headers_spec(s, p, hs, bl, ca) is Ok,
        headers_distinct(hs),
    ensures
        headers_distinct(headers_spec(s, p, hs, bl, ca)->Ok_0.0),
    decreases s.len() - p,
{
    lemma_line_end(s, p);
    let t = line_text(s, p);
    let np = line_end(s, p);
    if t.len() != 0 {
        let k = header_key(t);
        let v = header_value(t);
        let hs2 = header_insert(hs, k, v);
        lemma_header_insert_distinct(hs, k, v);
        let lk = str_to_lowercase(k);
        if lk == "content-length"@ {
            match parse_unsigned(v, 10, usize::MAX as int) {
                None => {},
                Some(n) => lemma_headers_spec_distinct(s, np, hs2, BodyLen::Length(n as usize), ca),
            }
        } else if ca && lk == "transfer-encoding"@ && v == "chunked"@ {
            lemma_headers_spec_distinct(s, np, hs2, BodyLen::Chunked, ca);
        } else {
            lemma_headers_spec_distinct(s, np, hs2, bl, ca);
        }
    }
}

/// A copy of a string.
pub fn owned(s: &str) -> (r: String)
    ensures
        r@ == s@,
{
    string_from_chars(chars_of(s))
}

/// The UTF-8 bytes of a string, as a new vector.
pub fn utf8_bytes(s: &String) -> (r: Vec<u8>)
    ensures
        r@ == encode_utf8(s@),
{
    let b = s.as_str().as_bytes();
    let mut out: Vec<u8> = Vec::new();
    let mut i: usize = 0;
    while i < b.len()
        invariant
            0 <= i <= b@.len(),
            b@ == encode_utf8(s@),
            out@ == b@.subrange(0, i as int),
        decreases b@.len() - i,
    {
        out.push(b[i]);
        i = i + 1;
        assert(out@ =~= b@.subrange(0, i as int));
    }
    assert(b@.subrange(0, b@.len() as int) =~= b@);
    out
}

} // verus!
