//! Reading back what is printed: a request written by `HttpRequest::to_string`, and a
//! response head written by `HttpResponse::to_string`, parse to what was printed.
use vstd::prelude::*;
use vstd::utf8::*;
use super::{
    crlf, header_index, header_insert, header_key, header_value, headers_distinct, headers_spec, headers_text,
    lemma_header_index, line_bytes, line_end, line_text, str_to_lowercase, word_bounds, BodyLen,
    HeaderSeq, Method, ParseError, Version,
};
use super::request::{has_content_length, request_line_spec, request_spec, request_text, RequestView};
use super::response::{body_len_text, response_spec, response_text, status_line_spec, ResponseHead};
use crate::text::{
    find_char, is_ws, lemma_parse_radix_chars, parse_unsigned, lemma_radix_chars_dec, radix_chars, skip_non_ws, skip_ws, trim_end,
    trim_end_len, trim_start,
};

verus! {

broadcast use vstd::utf8::encode_utf8_valid_utf8, vstd::utf8::encode_utf8_decode_utf8;

/// Encoding a concatenation concatenates the encodings.
pub proof fn lemma_encode_utf8_concat(a: Seq<char>, b: Seq<char>)
    ensures
        encode_utf8(a + b) == encode_utf8(a) + encode_utf8(b),
    decreases a.len(),
{
    if a.len() == 0 {
        assert(a + b =~= b);
        assert(encode_utf8(a) =~= Seq::<u8>::empty());
        assert(encode_utf8(a) + encode_utf8(b) =~= encode_utf8(b));
    } else {
        lemma_encode_utf8_concat(a.drop_first(), b);
        assert((a + b).drop_first() =~= a.drop_first() + b);
        assert((a + b)[0] == a[0]);
        assert(encode_utf8(a + b) =~= encode_utf8(a) + encode_utf8(b));
    }
}

proof fn lemma_scalar_bytes_not_lf(c: char)
    ensures
        c == '\n' ==> encode_scalar(c as u32) == seq![10u8],
        c != '\n' ==> forall|j: int|
            0 <= j < encode_scalar(c as u32).len() ==> #[trigger] encode_scalar(c as u32)[j] != 10,
{
    let v = c as u32;
    if has_width_1_encoding(v) {
        assert(v <= 0x7F ==> (v & 0x7F) as u8 == v as u8) by (bit_vector);
        assert(v <= 0x7F ==> (v as u8 == 10u8 <==> v == 10u32)) by (bit_vector);
        if c == '\n' {
            assert(encode_scalar(v) =~= seq![10u8]);
        }
    } else {
        assert(forall|x: u8| #![auto] (0xC0u8 | x) != 10u8) by (bit_vector);
        assert(forall|x: u8| #![auto] (0xE0u8 | x) != 10u8) by (bit_vector);
        assert(forall|x: u8| #![auto] (0xF0u8 | x) != 10u8) by (bit_vector);
        assert(forall|x: u8| #![auto] (0x80u8 | x) != 10u8) by (bit_vector);
    }
}

/// A text without a line feed encodes to bytes without the line feed byte.
pub proof fn lemma_encode_no_lf(l: Seq<char>)
    requires
        forall|i: int| 0 <= i < l.len() ==> #[trigger] l[i] != '\n',
    ensures
        forall|j: int| 0 <= j < encode_utf8(l).len() ==> #[trigger] encode_utf8(l)[j] != 10,
    decreases l.len(),
{
    if l.len() > 0 {
        lemma_encode_no_lf(l.drop_first());
        lemma_scalar_bytes_not_lf(l[0]);
        let e0 = encode_scalar(l[0] as u32);
        let er = encode_utf8(l.drop_first());
        assert(encode_utf8(l) == e0 + er);
        assert forall|j: int| 0 <= j < encode_utf8(l).len() implies #[trigger] encode_utf8(l)[j]
            != 10 by {
            if j < e0.len() {
                assert(encode_utf8(l)[j] == e0[j]);
            } else {
                assert(encode_utf8(l)[j] == er[j - e0.len()]);
                assert(encode_utf8(l.drop_first())[j - e0.len()] != 10);
            }
        }
    }
}

/// The line that starts at `p` ends just past the first line feed at `q`.
pub proof fn lemma_line_end_at(s: Seq<u8>, p: int, q: int)
    requires
        0 <= p <= q < s.len(),
        forall|j: int| p <= j < q ==> #[trigger] s[j] != 10,
        s[q] == 10,
    ensures
        line_end(s, p) == q + 1,
    decreases q - p,
{
    if p < q {
        lemma_line_end_at(s, p + 1, q);
    }
}

/// A line of text written at `p`, its line feed included, is read back as it was written.
pub proof fn lemma_line_at(s: Seq<u8>, p: int, l: Seq<char>, rest: Seq<u8>)
    requires
        0 <= p <= s.len(),
        s.subrange(p, s.len() as int) == encode_utf8(l.push('\n')) + rest,
        forall|i: int| 0 <= i < l.len() ==> #[trigger] l[i] != '\n',
    ensures
        line_end(s, p) == p + encode_utf8(l.push('\n')).len(),
        line_bytes(s, p) == encode_utf8(l.push('\n')),
        valid_utf8(line_bytes(s, p)),
        decode_utf8(line_bytes(s, p)) == l.push('\n'),
        line_end(s, p) <= s.len(),
        s.subrange(line_end(s, p), s.len() as int) == rest,
{
    let e = encode_utf8(l.push('\n'));
    let el = encode_utf8(l);
    assert(l.push('\n') =~= l + seq!['\n']);
    lemma_encode_utf8_concat(l, seq!['\n']);
    lemma_scalar_bytes_not_lf('\n');
    let nl = seq!['\n'];
    assert(nl.drop_first() =~= Seq::<char>::empty());
    assert(encode_utf8(Seq::<char>::empty()) =~= Seq::<u8>::empty());
    assert(nl[0] == '\n');
    assert(encode_utf8(nl) == encode_scalar(nl[0] as u32) + encode_utf8(nl.drop_first()));
    assert(encode_utf8(nl) =~= seq![10u8]);
    assert(e =~= el + seq![10u8]);
    lemma_encode_no_lf(l);
    let q = p + el.len();
    assert(s.subrange(p, s.len() as int).len() == s.len() - p);
    assert(q < s.len());
    assert forall|j: int| p <= j < q implies #[trigger] s[j] != 10 by {
        assert(s.subrange(p, s.len() as int)[j - p] == s[j]);
        assert(e[j - p] == el[j - p]);
    }
    assert(s.subrange(p, s.len() as int)[q - p] == s[q]);
    lemma_line_end_at(s, p, q);
    assert(line_bytes(s, p) =~= e);
    let sp = s.subrange(p, s.len() as int);
    assert forall|k: int| 0 <= k < rest.len() implies s.subrange(
        line_end(s, p),
        s.len() as int,
    )[k] == rest[k] by {
        assert(sp[e.len() + k] == s[p + e.len() + k]);
        assert((e + rest)[e.len() + k] == rest[k]);
    }
    assert(s.subrange(line_end(s, p), s.len() as int) =~= rest);
}

/// Removing trailing white space from a text followed by white space gives the text,
/// when it does not itself end in white space.
pub proof fn lemma_trim_end_ws_suffix(x: Seq<char>, y: Seq<char>)
    requires
        forall|i: int| 0 <= i < y.len() ==> is_ws(#[trigger] y[i]),
        x.len() == 0 || !is_ws(x.last()),
    ensures
        trim_end(x + y) == x,
{
    let cs = x + y;
    lemma_trim_end_len_down(cs, x.len() as int, cs.len() as int);
    assert(cs.subrange(0, x.len() as int) =~= x);
}

proof fn lemma_trim_end_len_down(cs: Seq<char>, m: int, n: int)
    requires
        0 <= m <= n <= cs.len(),
        forall|i: int| m <= i < n ==> is_ws(#[trigger] cs[i]),
        m == 0 || !is_ws(cs[m - 1]),
    ensures
        trim_end_len(cs, n) == m,
    decreases n,
{
    if n > m {
        lemma_trim_end_len_down(cs, m, n - 1);
    }
}

/// The first index at or after `i` that is not white space, when `i..j` is white space
/// and `j` is not.
pub proof fn lemma_skip_ws_at(t: Seq<char>, i: int, j: int)
    requires
        0 <= i <= j <= t.len(),
        forall|k: int| i <= k < j ==> is_ws(#[trigger] t[k]),
        j == t.len() || !is_ws(t[j]),
    ensures
        skip_ws(t, i) == j,
    decreases j - i,
{
    if i < j {
        lemma_skip_ws_at(t, i + 1, j);
    }
}

/// The first index at or after `i` that is white space, when `i..j` is not and `j` is.
pub proof fn lemma_skip_non_ws_at(t: Seq<char>, i: int, j: int)
    requires
        0 <= i <= j <= t.len(),
        forall|k: int| i <= k < j ==> !is_ws(#[trigger] t[k]),
        j == t.len() || is_ws(t[j]),
    ensures
        skip_non_ws(t, i) == j,
    decreases j - i,
{
    if i < j {
        lemma_skip_non_ws_at(t, i + 1, j);
    }
}

/// The first `c` at or after `i` is at `j`, when `i..j` holds no `c`.
pub proof fn lemma_find_char_at(t: Seq<char>, i: int, j: int, c: char)
    requires
        0 <= i <= j <= t.len(),
        forall|k: int| i <= k < j ==> #[trigger] t[k] != c,
        j == t.len() || t[j] == c,
    ensures
        find_char(t, i, c) == j,
    decreases j - i,
{
    if i < j {
        lemma_find_char_at(t, i + 1, j, c);
    }
}

/// A word that can stand on a request line: not empty, and without white space.
pub open spec fn plain_word(w: Seq<char>) -> bool {
    w.len() > 0 && forall|i: int| 0 <= i < w.len() ==> !is_ws(#[trigger] w[i])
}

/// A header that can be written and read back: neither its name nor its value holds `:`
/// or a line feed, and a value that is not empty neither starts nor ends with white space.
pub open spec fn printable_header(k: Seq<char>, v: Seq<char>) -> bool {
    &&& forall|i: int| 0 <= i < k.len() ==> #[trigger] k[i] != ':' && k[i] != '\n'
    &&& forall|i: int| 0 <= i < v.len() ==> #[trigger] v[i] != ':' && v[i] != '\n'
    &&& v.len() == 0 || (!is_ws(v[0]) && !is_ws(v.last()))
}

proof fn lemma_method_word(m: Method)
    ensures
        plain_word(m.text()),
{
    reveal_strlit("GET");
    reveal_strlit("POST");
    reveal_strlit("HEAD");
    reveal_strlit("PUT");
    reveal_strlit("DELETE");
    reveal_strlit("CONNECT");
    reveal_strlit("OPTIONS");
    reveal_strlit("TRACE");
    reveal_strlit("PATCH");
}

proof fn lemma_version_word(v: Version)
    ensures
        plain_word(v.text()),
{
    reveal_strlit("HTTP/1.0");
    reveal_strlit("HTTP/1.1");
}

/// The request line written for a method, resource and version reads back as them.
proof fn lemma_request_line(m: Method, res: Seq<char>, v: Version)
    requires
        plain_word(res),
    ensures
        request_line_spec(m.text() + seq![' '] + res + seq![' '] + v.text()) == Ok::<
            (Method, Seq<char>, Version),
            ParseError,
        >((m, res, v)),
{
    let mt = m.text();
    let vt = v.text();
    lemma_method_word(m);
    lemma_version_word(v);
    let t = mt + seq![' '] + res + seq![' '] + vt;
    let a1 = mt.len() as int;
    let b0 = a1 + 1;
    let b1 = b0 + res.len();
    let c0 = b1 + 1;
    let c1 = t.len() as int;
    assert(forall|i: int| 0 <= i < a1 ==> t[i] == mt[i]);
    assert(forall|i: int| b0 <= i < b1 ==> t[i] == res[i - b0]);
    assert(forall|i: int| c0 <= i < c1 ==> t[i] == vt[i - c0]);
    assert(t[a1] == ' ');
    assert(t[b1] == ' ');
    lemma_skip_ws_at(t, 0, 0);
    lemma_skip_non_ws_at(t, 0, a1);
    lemma_skip_ws_at(t, a1, b0);
    lemma_skip_non_ws_at(t, b0, b1);
    lemma_skip_ws_at(t, b1, c0);
    lemma_skip_non_ws_at(t, c0, c1);
    assert(word_bounds(t) == (0int, a1, b0, b1, c0, c1));
    assert(t.subrange(0, a1) =~= mt);
    assert(t.subrange(b0, b1) =~= res);
    assert(t.subrange(c0, c1) =~= vt);
    Method::lemma_text_roundtrip(m);
    Version::lemma_text_roundtrip(v);
}

/// A header line written for a printable header reads back as its name and value.
proof fn lemma_header_line(k: Seq<char>, v: Seq<char>)
    requires
        printable_header(k, v),
    ensures
        trim_end(k + seq![':', ' '] + v + crlf()).len() > 0,
        find_char(trim_end(k + seq![':', ' '] + v + crlf()), 0, ':') < trim_end(
            k + seq![':', ' '] + v + crlf(),
        ).len(),
        header_key(trim_end(k + seq![':', ' '] + v + crlf())) == k,
        header_value(trim_end(k + seq![':', ' '] + v + crlf())) == v,
{
    let line = k + seq![':', ' '] + v + crlf();
    let t = if v.len() == 0 {
        k + seq![':']
    } else {
        k + seq![':', ' '] + v
    };
    if v.len() == 0 {
        assert(line =~= t + seq![' ', '\r', '\n']);
        lemma_trim_end_ws_suffix(t, seq![' ', '\r', '\n']);
    } else {
        assert(line =~= t + crlf());
        assert(t.last() == v.last());
        lemma_trim_end_ws_suffix(t, crlf());
    }
    assert(trim_end(line) == t);
    let c = k.len() as int;
    assert(t[c] == ':');
    assert(forall|i: int| 0 <= i < c ==> t[i] == k[i]);
    lemma_find_char_at(t, 0, c, ':');
    assert(t.subrange(0, c) =~= k);
    if v.len() == 0 {
        lemma_find_char_at(t, c + 1, c + 1, ':');
        assert(t.subrange(c + 1, c + 1) =~= Seq::<char>::empty());
        lemma_skip_ws_at(Seq::<char>::empty(), 0, 0);
        assert(trim_start(Seq::<char>::empty()) =~= v);
    } else {
        assert(forall|i: int| c + 2 <= i < t.len() ==> t[i] == v[i - c - 2]);
        assert(t[c + 1] == ' ');
        lemma_find_char_at(t, c + 1, t.len() as int, ':');
        let second = t.subrange(c + 1, t.len() as int);
        assert(second =~= seq![' '] + v);
        lemma_skip_ws_at(second, 0, 1);
        assert(second.subrange(1, second.len() as int) =~= v);
    }
}

/// The header lines of two lists one after the other are those of their concatenation.
pub proof fn lemma_headers_text_concat(a: HeaderSeq, b: HeaderSeq)
    ensures
        headers_text(a + b) == headers_text(a) + headers_text(b),
    decreases b.len(),
{
    if b.len() == 0 {
        assert(a + b =~= a);
        assert(headers_text(a) + headers_text(b) =~= headers_text(a));
    } else {
        lemma_headers_text_concat(a, b.drop_last());
        assert((a + b).drop_last() =~= a + b.drop_last());
        assert((a + b).last() == b.last());
        assert(headers_text(a + b) =~= headers_text(a) + headers_text(b));
    }
}

/// The header line of one header.
pub open spec fn header_line(h: (Seq<char>, Seq<char>)) -> Seq<char> {
    h.0 + seq![':', ' '] + h.1 + crlf()
}

proof fn lemma_headers_text_first(hs: HeaderSeq)
    requires
        hs.len() > 0,
    ensures
        headers_text(hs) == header_line(hs[0]) + headers_text(hs.drop_first()),
{
    let first = seq![hs[0]];
    assert(hs =~= first + hs.drop_first());
    lemma_headers_text_concat(first, hs.drop_first());
    assert(first.drop_last() =~= Seq::<(Seq<char>, Seq<char>)>::empty());
    assert(headers_text(first.drop_last()) =~= Seq::<char>::empty());
    assert(first.last() == hs[0]);
    assert(headers_text(first) =~= header_line(hs[0]));
}

/// A header section written for printable, distinct headers, each `Content-Length` among
/// them giving `n`, reads back as those headers after the ones read before; the body
/// length becomes `n` when there is such a header, and stays as it was otherwise.
proof fn lemma_headers_read_back(
    s: Seq<u8>,
    p: int,
    acc: HeaderSeq,
    hs: HeaderSeq,
    bl: BodyLen,
    n: nat,
    tail: Seq<u8>,
    ca: bool,
)
    requires
        0 <= p <= s.len(),
        s.subrange(p, s.len() as int) == encode_utf8(headers_text(hs) + crlf()) + tail,
        forall|i: int| 0 <= i < hs.len() ==> printable_header(#[trigger] hs[i].0, hs[i].1),
        forall|i: int|
            0 <= i < hs.len() && str_to_lowercase(#[trigger] hs[i].0) == "content-length"@
                ==> hs[i].1 == radix_chars(n, 10),
        n <= usize::MAX,
        headers_distinct(acc + hs),
        ca ==> forall|i: int|
            0 <= i < hs.len() ==> !(str_to_lowercase(#[trigger] hs[i].0) == "transfer-encoding"@
                && hs[i].1 == "chunked"@),
    ensures
        headers_spec(s, p, acc, bl, ca) == Ok::<(HeaderSeq, BodyLen, int), ParseError>(
            (
                acc + hs,
                if has_content_length(hs) {
                    BodyLen::Length(n as usize)
                } else {
                    bl
                },
                s.len() - tail.len(),
            ),
        ),
    decreases hs.len(),
{
    if hs.len() == 0 {
        assert(headers_text(hs) + crlf() =~= seq!['\r'].push('\n'));
        lemma_line_at(s, p, seq!['\r'], tail);
        lemma_trim_end_ws_suffix(Seq::<char>::empty(), seq!['\r', '\n']);
        assert(seq!['\r'].push('\n') =~= Seq::<char>::empty() + seq!['\r', '\n']);
        assert(line_text(s, p).len() == 0);
        assert(s.subrange(line_end(s, p), s.len() as int).len() == tail.len());
        assert(acc + hs =~= acc);
        assert(!has_content_length(hs));
    } else {
        let h = hs[0];
        let rest = hs.drop_first();
        let l = h.0 + seq![':', ' '] + h.1 + seq!['\r'];
        lemma_headers_text_first(hs);
        assert(header_line(h) =~= l.push('\n'));
        assert(headers_text(hs) + crlf() =~= l.push('\n') + (headers_text(rest) + crlf()));
        lemma_encode_utf8_concat(l.push('\n'), headers_text(rest) + crlf());
        assert(printable_header(hs[0].0, hs[0].1));
        assert forall|i: int| 0 <= i < l.len() implies #[trigger] l[i] != '\n' by {
            if i < h.0.len() {
                assert(l[i] == h.0[i]);
            } else if i >= h.0.len() + 2 && i < h.0.len() + 2 + h.1.len() {
                assert(l[i] == h.1[i - h.0.len() - 2]);
            }
        }
        assert(encode_utf8(headers_text(hs) + crlf()) + tail =~= encode_utf8(l.push('\n')) + (
        encode_utf8(headers_text(rest) + crlf()) + tail));
        lemma_line_at(s, p, l, encode_utf8(headers_text(rest) + crlf()) + tail);
        lemma_header_line(h.0, h.1);
        assert(l.push('\n') =~= h.0 + seq![':', ' '] + h.1 + crlf());
        let np = line_end(s, p);
        let i0 = header_index(acc, h.0, 0);
        lemma_header_index(acc, h.0, 0);
        if i0 < acc.len() {
            assert(acc[i0].0 == h.0);
            assert((acc + hs)[i0] == acc[i0]);
            assert((acc + hs)[acc.len() as int] == h);
            assert(false);
        }
        assert(header_insert(acc, h.0, h.1) == acc.push(h));
        assert(acc.push(h) + rest =~= acc + hs);
        assert forall|i: int| 0 <= i < rest.len() implies printable_header(
            #[trigger] rest[i].0,
            rest[i].1,
        ) by {
            assert(rest[i] == hs[i + 1]);
        }
        assert forall|i: int|
            0 <= i < rest.len() && str_to_lowercase(#[trigger] rest[i].0) == "content-length"@
                implies rest[i].1 == radix_chars(n, 10) by {
            assert(rest[i] == hs[i + 1]);
        }
        assert forall|i: int| ca && 0 <= i < rest.len() implies !(str_to_lowercase(
            #[trigger] rest[i].0,
        ) == "transfer-encoding"@ && rest[i].1 == "chunked"@) by {
            assert(rest[i] == hs[i + 1]);
        }
        if has_content_length(rest) {
            let j = choose|j: int|
                0 <= j < rest.len() && str_to_lowercase(#[trigger] rest[j].0) == "content-length"@;
            assert(hs[j + 1] == rest[j]);
            assert(has_content_length(hs));
        }
        if str_to_lowercase(h.0) == "content-length"@ {
            assert(has_content_length(hs));
            assert(h.1 == radix_chars(n, 10));
            lemma_parse_radix_chars(n, usize::MAX as int);
            lemma_headers_read_back(s, np, acc.push(h), rest, BodyLen::Length(n as usize), n, tail, ca);
        } else {
            if has_content_length(hs) {
                let j = choose|j: int|
                    0 <= j < hs.len() && str_to_lowercase(#[trigger] hs[j].0) == "content-length"@;
                assert(j != 0);
                assert(rest[j - 1] == hs[j]);
                assert(has_content_length(rest));
            }
            if ca {
                assert(!(str_to_lowercase(hs[0].0) == "transfer-encoding"@ && hs[0].1 == "chunked"@));
            }
            lemma_headers_read_back(s, np, acc.push(h), rest, bl, n, tail, ca);
        }
    }
}

/// Printing a request and reading the bytes of its text and body back gives the same
/// request, when the resource is one word, the headers are printable and distinct, and
/// either the body is empty and no header is a `Content-Length`, or there are such headers
/// and each gives the length of the body.
pub proof fn lemma_request_roundtrip(r: RequestView)
    requires
        plain_word(r.resource),
        forall|i: int|
            0 <= i < r.headers.len() ==> printable_header(#[trigger] r.headers[i].0, r.headers[i].1),
        headers_distinct(r.headers),
        r.body.len() <= usize::MAX,
        has_content_length(r.headers) || r.body.len() == 0,
        forall|i: int|
            0 <= i < r.headers.len() && str_to_lowercase(#[trigger] r.headers[i].0)
                == "content-length"@ ==> r.headers[i].1 == radix_chars(r.body.len(), 10),
    ensures
        request_spec(encode_utf8(request_text(r)) + r.body) == Ok::<RequestView, ParseError>(r),
{
    let first = r.method.text() + seq![' '] + r.resource + seq![' '] + r.version.text();
    let l0 = first + seq!['\r'];
    let rest = headers_text(r.headers) + crlf();
    let text = request_text(r);
    assert(text =~= l0.push('\n') + rest);
    let s = encode_utf8(text) + r.body;
    lemma_encode_utf8_concat(l0.push('\n'), rest);
    lemma_method_word(r.method);
    lemma_version_word(r.version);
    assert forall|i: int| 0 <= i < l0.len() implies #[trigger] l0[i] != '\n' by {
        let a = r.method.text().len() as int;
        let b = a + 1 + r.resource.len();
        if i < a {
            assert(l0[i] == r.method.text()[i]);
        } else if a < i < b {
            assert(l0[i] == r.resource[i - a - 1]);
        } else if b < i < first.len() {
            assert(l0[i] == r.version.text()[i - b - 1]);
        }
    }
    assert(s.subrange(0, s.len() as int) =~= encode_utf8(l0.push('\n')) + (encode_utf8(rest)
        + r.body));
    lemma_line_at(s, 0, l0, encode_utf8(rest) + r.body);
    assert(l0.push('\n') =~= first + crlf());
    assert(first.last() == r.version.text().last());
    lemma_trim_end_ws_suffix(first, crlf());
    lemma_request_line(r.method, r.resource, r.version);
    assert(Seq::<(Seq<char>, Seq<char>)>::empty() + r.headers =~= r.headers);
    lemma_headers_read_back(
        s,
        line_end(s, 0),
        seq![],
        r.headers,
        BodyLen::Length(0),
        r.body.len(),
        r.body,
        false,
    );
    let total = s.len() - r.body.len();
    assert(total == encode_utf8(text).len());
    assert(s.subrange(total, total + r.body.len()) =~= r.body);
}

proof fn lemma_digits_word(n: nat)
    ensures
        plain_word(radix_chars(n, 10)),
{
    lemma_radix_chars_dec(n);
}

/// The status line of a version and code without a reason phrase reads back as them.
proof fn lemma_status_words_two(v: Version, code: u16)
    ensures
        status_line_spec(v.text() + seq![' '] + radix_chars(code as nat, 10)) == Ok::<
            (Version, u16, Seq<char>),
            ParseError,
        >((v, code, Seq::<char>::empty())),
{
    let vt = v.text();
    let d = radix_chars(code as nat, 10);
    lemma_version_word(v);
    lemma_digits_word(code as nat);
    let t = vt + seq![' '] + d;
    let a1 = vt.len() as int;
    let b0 = a1 + 1;
    let b1 = b0 + d.len();
    assert(forall|i: int| 0 <= i < a1 ==> t[i] == vt[i]);
    assert(forall|i: int| b0 <= i < b1 ==> t[i] == d[i - b0]);
    assert(t[a1] == ' ');
    lemma_skip_ws_at(t, 0, 0);
    lemma_skip_non_ws_at(t, 0, a1);
    lemma_skip_ws_at(t, a1, b0);
    lemma_skip_non_ws_at(t, b0, b1);
    lemma_skip_ws_at(t, b1, b1);
    lemma_skip_non_ws_at(t, b1, b1);
    assert(word_bounds(t) == (0int, a1, b0, b1, b1, b1));
    assert(t.subrange(0, a1) =~= vt);
    assert(t.subrange(b0, b1) =~= d);
    Version::lemma_text_roundtrip(v);
    lemma_parse_radix_chars(code as nat, 65535);
}

/// The status line of a version, code and one-word reason phrase reads back as them.
proof fn lemma_status_words_three(v: Version, code: u16, text: Seq<char>)
    requires
        plain_word(text),
    ensures
        status_line_spec(v.text() + seq![' '] + radix_chars(code as nat, 10) + seq![' '] + text)
            == Ok::<(Version, u16, Seq<char>), ParseError>((v, code, text)),
{
    let vt = v.text();
    let d = radix_chars(code as nat, 10);
    lemma_version_word(v);
    lemma_digits_word(code as nat);
    let t = vt + seq![' '] + d + seq![' '] + text;
    let a1 = vt.len() as int;
    let b0 = a1 + 1;
    let b1 = b0 + d.len();
    let c0 = b1 + 1;
    let c1 = t.len() as int;
    assert(forall|i: int| 0 <= i < a1 ==> t[i] == vt[i]);
    assert(forall|i: int| b0 <= i < b1 ==> t[i] == d[i - b0]);
    assert(forall|i: int| c0 <= i < c1 ==> t[i] == text[i - c0]);
    assert(t[a1] == ' ');
    assert(t[b1] == ' ');
    lemma_skip_ws_at(t, 0, 0);
    lemma_skip_non_ws_at(t, 0, a1);
    lemma_skip_ws_at(t, a1, b0);
    lemma_skip_non_ws_at(t, b0, b1);
    lemma_skip_ws_at(t, b1, c0);
    lemma_skip_non_ws_at(t, c0, c1);
    assert(word_bounds(t) == (0int, a1, b0, b1, c0, c1));
    assert(t.subrange(0, a1) =~= vt);
    assert(t.subrange(b0, b1) =~= d);
    assert(t.subrange(c0, c1) =~= text);
    Version::lemma_text_roundtrip(v);
    lemma_parse_radix_chars(code as nat, 65535);
}

/// The status line written for a version, code and reason phrase (one word, or none)
/// reads back as them.
proof fn lemma_status_line(v: Version, code: u16, text: Seq<char>)
    requires
        text.len() == 0 || plain_word(text),
    ensures
        status_line_spec(
            trim_end(v.text() + seq![' '] + radix_chars(code as nat, 10) + seq![' '] + text + crlf()),
        ) == Ok::<(Version, u16, Seq<char>), ParseError>((v, code, text)),
{
    let vt = v.text();
    let d = radix_chars(code as nat, 10);
    lemma_digits_word(code as nat);
    let line = vt + seq![' '] + d + seq![' '] + text + crlf();
    if text.len() == 0 {
        let t = vt + seq![' '] + d;
        assert(line =~= t + seq![' ', '\r', '\n']);
        assert(t.last() == d.last());
        lemma_trim_end_ws_suffix(t, seq![' ', '\r', '\n']);
        lemma_status_words_two(v, code);
        assert(text =~= Seq::<char>::empty());
    } else {
        let t = vt + seq![' '] + d + seq![' '] + text;
        assert(line =~= t + crlf());
        assert(t.last() == text.last());
        lemma_trim_end_ws_suffix(t, crlf());
        lemma_status_words_three(v, code, text);
    }
}

/// Printing a response head and reading its bytes back gives the same head, when it
/// announces no body (a length of zero), its reason phrase is one word or none, and its
/// headers are printable and distinct, none of them a `Content-Length` or a
/// `Transfer-Encoding: chunked`.
pub proof fn lemma_response_roundtrip(h: ResponseHead)
    requires
        h.body_len == BodyLen::Length(0),
        h.status_text.len() == 0 || plain_word(h.status_text),
        forall|i: int|
            0 <= i < h.headers.len() ==> printable_header(#[trigger] h.headers[i].0, h.headers[i].1),
        headers_distinct(h.headers),
        !has_content_length(h.headers),
        forall|i: int|
            0 <= i < h.headers.len() ==> !(str_to_lowercase(#[trigger] h.headers[i].0)
                == "transfer-encoding"@ && h.headers[i].1 == "chunked"@),
    ensures
        response_spec(encode_utf8(response_text(h))) == Ok::<(ResponseHead, int), ParseError>(
            (h, encode_utf8(response_text(h)).len() as int),
        ),
{
    let first = h.version.text() + seq![' '] + radix_chars(h.status_code as nat, 10) + seq![' ']
        + h.status_text;
    let l0 = first + seq!['\r'];
    let rest = headers_text(h.headers) + crlf();
    let text = response_text(h);
    assert(body_len_text(h.body_len) =~= Seq::<char>::empty());
    assert(text =~= l0.push('\n') + rest);
    let s = encode_utf8(text);
    lemma_encode_utf8_concat(l0.push('\n'), rest);
    lemma_version_word(h.version);
    lemma_digits_word(h.status_code as nat);
    let d = radix_chars(h.status_code as nat, 10);
    assert forall|i: int| 0 <= i < l0.len() implies #[trigger] l0[i] != '\n' by {
        let a = h.version.text().len() as int;
        let b = a + 1 + d.len();
        if i < a {
            assert(l0[i] == h.version.text()[i]);
        } else if a < i < b {
            assert(l0[i] == d[i - a - 1]);
        } else if b < i < first.len() {
            assert(l0[i] == h.status_text[i - b - 1]);
        }
    }
    assert(s.subrange(0, s.len() as int) =~= encode_utf8(l0.push('\n')) + (encode_utf8(rest)
        + Seq::<u8>::empty()));
    lemma_line_at(s, 0, l0, encode_utf8(rest) + Seq::<u8>::empty());
    assert(l0.push('\n') =~= first + crlf());
    lemma_status_line(h.version, h.status_code, h.status_text);
    assert forall|i: int|
        0 <= i < h.headers.len() && str_to_lowercase(#[trigger] h.headers[i].0)
            == "content-length"@ implies h.headers[i].1 == radix_chars(0, 10) by {
        assert(has_content_length(h.headers));
    }
    assert(Seq::<(Seq<char>, Seq<char>)>::empty() + h.headers =~= h.headers);
    assert(encode_utf8(rest) + Seq::<u8>::empty() =~= encode_utf8(rest));
    lemma_headers_read_back(
        s,
        line_end(s, 0),
        seq![],
        h.headers,
        BodyLen::Length(0),
        0,
        Seq::<u8>::empty(),
        true,
    );
}

} // verus!
