//! `TextEncoder` and `TextDecoder`: UTF-8 encoding of text, encoding into a given buffer
//! as far as it fits, and decoding of bytes under an encoding label.
use vstd::prelude::*;
use vstd::utf8::*;
use crate::text::{chars_of, str_eq};
use encoding::types::{DecoderTrap, Encoding};

verus! {

broadcast use vstd::string::group_string_axioms, vstd::utf8::char_is_scalar;

/// The name of what the `encoding` crate decodes from the bytes with the encoding that
/// its WHATWG label lookup gives for `label`, failing on malformed input when `fatal`.
pub uninterp spec fn whatwg_decoded(label: Seq<char>, bytes: Seq<u8>, fatal: bool) -> Result<
    Seq<char>,
    Seq<char>,
>;

/// The name of what the `encoding` crate's HZ decoder gives for the bytes, failing on
/// malformed input when `fatal`.
pub uninterp spec fn hz_decoded(bytes: Seq<u8>, fatal: bool) -> Result<Seq<char>, Seq<char>>;

/// A decoding result, the text or the error message by their characters.
pub open spec fn result_view(r: Result<String, String>) -> Result<Seq<char>, Seq<char>> {
    match r {
        Ok(s) => Ok(s@),
        Err(e) => Err(e@),
    }
}

/// The labels under which UTF-8 is chosen; the empty label means UTF-8 too.
pub open spec fn utf8_label(label: Seq<char>) -> bool {
    label == ""@ || label == "utf8"@ || label == "utf-8"@
}

fn is_utf8_label(label: &str) -> (r: bool)
    ensures
        r == utf8_label(label@),
{
    str_eq(label, "") || str_eq(label, "utf8") || str_eq(label, "utf-8")
}

/// The WHATWG label of the decoder chosen for a label of this module; none for HZ, which
/// is decoded on its own, and for labels that are not offered.
pub open spec fn whatwg_label_for(label: Seq<char>) -> Option<Seq<char>> {
    if utf8_label(label) {
        Some("utf-8"@)
    } else if label == "iso-8859-8i"@ {
        Some("iso-8859-8-i"@)
    } else if label == "gbk"@ || label == "gb18030"@ || label == "big5"@ || label == "euc-jp"@
        || label == "iso-2022-jp"@ || label == "utf-16be"@ || label == "utf-16le"@ || label
        == "x-user-defined"@ || label == "ibm866"@ || label == "iso-8859-2"@ || label
        == "iso-8859-3"@ || label == "iso-8859-4"@ || label == "iso-8859-5"@ || label
        == "iso-8859-6"@ || label == "iso-8859-7"@ || label == "iso-8859-8"@ || label
        == "iso-8859-10"@ || label == "iso-8859-13"@ || label == "iso-8859-14"@ || label
        == "iso-8859-15"@ || label == "iso-8859-16"@ || label == "windows-874"@ || label
        == "windows-1250"@ || label == "windows-1251"@ || label == "windows-1252"@ || label
        == "windows-1253"@ || label == "windows-1254"@ || label == "windows-1255"@ || label
        == "windows-1256"@ || label == "windows-1257"@ || label == "windows-1258"@ {
        Some(label)
    } else {
        None
    }
}

/// Each label that the module offers selects the decoder of that same name, but for the
/// UTF-8 labels, which select UTF-8, and `iso-8859-8i`, which selects `iso-8859-8-i`: no
/// label is decoded under another encoding than the one it names.
pub proof fn lemma_label_names_its_decoder(label: Seq<char>)
    ensures
        whatwg_label_for(label) matches Some(w) ==> (utf8_label(label) && w == "utf-8"@) || (
        label == "iso-8859-8i"@ && w == "iso-8859-8-i"@) || w == label,
        utf8_label(label) ==> whatwg_label_for(label) == Some("utf-8"@),
{
}

/// The WHATWG labels that `whatwg_label_for` gives; the lookup of the `encoding` crate
/// knows each of them.
pub open spec fn known_whatwg_label(label: Seq<char>) -> bool {
    exists|l: Seq<char>| #[trigger] whatwg_label_for(l) == Some(label)
}

fn whatwg_label_of(label: &str) -> (r: Option<&str>)
    ensures
        match whatwg_label_for(label@) {
            Some(w) => r matches Some(s) && s@ == w,
            None => r is None,
        },
{
    if is_utf8_label(label) {
        return Some("utf-8");
    }
    if str_eq(label, "iso-8859-8i") {
        return Some("iso-8859-8-i");
    }
    if str_eq(label, "gbk") || str_eq(label, "gb18030") || str_eq(label, "big5") || str_eq(
        label,
        "euc-jp",
    ) || str_eq(label, "iso-2022-jp") || str_eq(label, "utf-16be") || str_eq(label, "utf-16le")
        || str_eq(label, "x-user-defined") || str_eq(label, "ibm866") || str_eq(
        label,
        "iso-8859-2",
    ) || str_eq(label, "iso-8859-3") || str_eq(label, "iso-8859-4") || str_eq(
        label,
        "iso-8859-5",
    ) || str_eq(label, "iso-8859-6") || str_eq(label, "iso-8859-7") || str_eq(
        label,
        "iso-8859-8",
    ) || str_eq(label, "iso-8859-10") || str_eq(label, "iso-8859-13") || str_eq(
        label,
        "iso-8859-14",
    ) || str_eq(label, "iso-8859-15") || str_eq(label, "iso-8859-16") || str_eq(
        label,
        "windows-874",
    ) || str_eq(label, "windows-1250") || str_eq(label, "windows-1251") || str_eq(
        label,
        "windows-1252",
    ) || str_eq(label, "windows-1253") || str_eq(label, "windows-1254") || str_eq(
        label,
        "windows-1255",
    ) || str_eq(label, "windows-1256") || str_eq(label, "windows-1257") || str_eq(
        label,
        "windows-1258",
    ) {
        return Some(label);
    }
    None
}

/// `Encoding::decode` of the `encoding` crate on the encoding that
/// `encoding::label::encoding_from_whatwg_label` finds for the label, with the strict trap
/// when `fatal` and the replacing trap otherwise. The lookup knows every label that
/// `known_whatwg_label` admits. Decoding with the replacing trap never fails; UTF-8
/// decoding of well-formed input gives the text it encodes, and of malformed input fails
/// under the strict trap. Where the replacing trap puts U+FFFD in malformed UTF-8, and what
/// the other decoders give, is only named.
#[verifier::external_body]
fn decode_whatwg(label: &str, bytes: &[u8], fatal: bool) -> (r: Result<String, String>)
    requires
        known_whatwg_label(label@),
    ensures
        result_view(r) == whatwg_decoded(label@, bytes@, fatal),
        !fatal ==> r is Ok,
        label@ == "utf-8"@ && valid_utf8(bytes@) ==> r is Ok && r->Ok_0@ == decode_utf8(bytes@),
        label@ == "utf-8"@ && fatal && !valid_utf8(bytes@) ==> r is Err,
{
    let trap = match fatal {
        true => DecoderTrap::Strict,
        false => DecoderTrap::Replace,
    };
    let e = encoding::label::encoding_from_whatwg_label(label).unwrap();
    e.decode(bytes, trap).map_err(|c| c.into_owned())
}

/// `Encoding::decode` of the `encoding` crate's HZ encoding, with the strict trap when
/// `fatal` and the replacing trap otherwise; with the replacing trap it never fails.
#[verifier::external_body]
fn decode_hz(bytes: &[u8], fatal: bool) -> (r: Result<String, String>)
    ensures
        result_view(r) == hz_decoded(bytes@, fatal),
        !fatal ==> r is Ok,
{
    let trap = match fatal {
        true => DecoderTrap::Strict,
        false => DecoderTrap::Replace,
    };
    encoding::all::HZ.decode(bytes, trap).map_err(|c| c.into_owned())
}

/// Decodes bytes under an encoding label, as `TextDecoder.decode` does: none for a label
/// that is not offered, else the text, or the decoder's error when `fatal` and the bytes
/// are malformed.
pub fn text_decode(bytes: &[u8], label: &str, fatal: bool) -> (r: Option<Result<String, String>>)
    ensures
        label@ == "hz-gb-2312"@ ==> (r matches Some(res) && result_view(res) == hz_decoded(
            bytes@,
            fatal,
        )),
        label@ != "hz-gb-2312"@ ==> match whatwg_label_for(label@) {
            Some(w) => r matches Some(res) && result_view(res) == whatwg_decoded(w, bytes@, fatal),
            None => r is None,
        },
        !fatal ==> (r matches Some(res) ==> res is Ok),
        utf8_label(label@) && valid_utf8(bytes@) ==> (r matches Some(Ok(s)) && s@ == decode_utf8(
            bytes@,
        )),
        utf8_label(label@) && fatal && !valid_utf8(bytes@) ==> (r matches Some(Err(_))),
{
    if str_eq(label, "hz-gb-2312") {
        proof {
            reveal_strlit("hz-gb-2312");
            reveal_strlit("");
            reveal_strlit("utf8");
            reveal_strlit("utf-8");
            assert(label@ == "hz-gb-2312"@);
            assert(label@.len() == 10);
            assert(""@.len() == 0);
            assert("utf8"@.len() == 4);
            assert("utf-8"@.len() == 5);
            assert(!utf8_label(label@));
        }
        return Some(decode_hz(bytes, fatal));
    }
    match whatwg_label_of(label) {
        Some(w) => {
            assert(whatwg_label_for(label@) == Some(w@));
            assert(known_whatwg_label(w@));
            Some(decode_whatwg(w, bytes, fatal))
        },
        None => None,
    }
}

/// Encodes text as UTF-8, as `TextEncoder.encode` does; none for a label other than
/// UTF-8.
pub fn text_encode(s: &str, label: &str) -> (r: Option<Vec<u8>>)
    ensures
        utf8_label(label@) ==> (r matches Some(v) && v@ == encode_utf8(s@)),
        !utf8_label(label@) ==> r is None,
{
    if is_utf8_label(label) {
        Some(s.as_bytes_vec())
    } else {
        None
    }
}

proof fn lemma_bytes_width_2(c: u32)
    requires
        0x80 <= c <= 0x7FF,
    ensures
        ((c >> 6 & 0x1F) as u8 | 0xC0u8) == leading_byte_width_2(c),
        ((c & 0x3F) as u8 | 0x80u8) == last_continuation_byte(c),
{
    assert(((c >> 6 & 0x1F) as u8 | 0xC0u8) == (0xC0u8 | ((c >> 6) & 0x1F) as u8)) by (bit_vector);
    assert(((c & 0x3F) as u8 | 0x80u8) == (0x80u8 | (c & 0x3F) as u8)) by (bit_vector);
}

proof fn lemma_bytes_width_3(c: u32)
    ensures
        ((c >> 12 & 0x0F) as u8 | 0xE0u8) == leading_byte_width_3(c),
        ((c >> 6 & 0x3F) as u8 | 0x80u8) == second_last_continuation_byte(c),
        ((c & 0x3F) as u8 | 0x80u8) == last_continuation_byte(c),
{
    assert(((c >> 12 & 0x0F) as u8 | 0xE0u8) == (0xE0u8 | ((c >> 12) & 0x0F) as u8))
        by (bit_vector);
    assert(((c >> 6 & 0x3F) as u8 | 0x80u8) == (0x80u8 | ((c >> 6) & 0x3F) as u8))
        by (bit_vector);
    assert(((c & 0x3F) as u8 | 0x80u8) == (0x80u8 | (c & 0x3F) as u8)) by (bit_vector);
}

proof fn lemma_bytes_width_4(c: u32)
    ensures
        ((c >> 18 & 0x07) as u8 | 0xF0u8) == leading_byte_width_4(c),
        ((c >> 12 & 0x3F) as u8 | 0x80u8) == third_last_continuation_byte(c),
{
    assert(((c >> 18 & 0x07) as u8 | 0xF0u8) == (0xF0u8 | ((c >> 18) & 0x7) as u8))
        by (bit_vector);
    assert(((c >> 12 & 0x3F) as u8 | 0x80u8) == (0x80u8 | ((c >> 12) & 0x3F) as u8))
        by (bit_vector);
}

proof fn lemma_width_1(c: u32)
    requires
        c < 0x80,
    ensures
        (c as u8) == leading_byte_width_1(c),
{
    assert(c < 0x80 ==> (c as u8) == (c & 0x7F) as u8) by (bit_vector);
}

/// Writes the UTF-8 encoding of a character at `pos`, if it fits there; gives its length.
pub fn encode_utf8_at(code: char, dst: &mut [u8], pos: usize) -> (r: Option<usize>)
    requires
        pos <= old(dst)@.len(),
    ensures
        ({
            let e = encode_scalar(code as u32);
            if pos + e.len() <= old(dst)@.len() {
                r == Some(e.len() as usize) && final(dst)@ == old(dst)@.take(pos as int) + e + old(
                    dst,
                )@.skip(pos + e.len())
            } else {
                r is None && final(dst)@ == old(dst)@
            }
        }),
{
    let c = code as u32;
    let ghost e = encode_scalar(c);
    let room = dst.len() - pos;
    proof {
        assert(is_scalar(c));
    }
    if c < 0x80 {
        if room < 1 {
            return None;
        }
        proof {
            lemma_width_1(c);
        }
        dst[pos] = c as u8;
        assert(dst@ =~= old(dst)@.take(pos as int) + e + old(dst)@.skip(pos + 1));
        Some(1)
    } else if c < 0x800 {
        if room < 2 {
            return None;
        }
        proof {
            lemma_bytes_width_2(c);
        }
        dst[pos] = (c >> 6 & 0x1F) as u8 | 0xC0u8;
        dst[pos + 1] = (c & 0x3F) as u8 | 0x80u8;
        assert(dst@ =~= old(dst)@.take(pos as int) + e + old(dst)@.skip(pos + 2));
        Some(2)
    } else if c < 0x10000 {
        if room < 3 {
            return None;
        }
        proof {
            lemma_bytes_width_3(c);
        }
        dst[pos] = (c >> 12 & 0x0F) as u8 | 0xE0u8;
        dst[pos + 1] = (c >> 6 & 0x3F) as u8 | 0x80u8;
        dst[pos + 2] = (c & 0x3F) as u8 | 0x80u8;
        assert(dst@ =~= old(dst)@.take(pos as int) + e + old(dst)@.skip(pos + 3));
        Some(3)
    } else {
        if room < 4 {
            return None;
        }
        proof {
            lemma_bytes_width_4(c);
            lemma_bytes_width_3(c);
        }
        dst[pos] = (c >> 18 & 0x07) as u8 | 0xF0u8;
        dst[pos + 1] = (c >> 12 & 0x3F) as u8 | 0x80u8;
        dst[pos + 2] = (c >> 6 & 0x3F) as u8 | 0x80u8;
        dst[pos + 3] = (c & 0x3F) as u8 | 0x80u8;
        assert(dst@ =~= old(dst)@.take(pos as int) + e + old(dst)@.skip(pos + 4));
        Some(4)
    }
}

/// Writes the UTF-8 encoding of a character at the start of `dst`, if it fits; gives its
/// length.
pub fn encode_utf8_raw(code: char, dst: &mut [u8]) -> (r: Option<usize>)
    ensures
        ({
            let e = encode_scalar(code as u32);
            if e.len() <= old(dst)@.len() {
                r == Some(e.len() as usize) && final(dst)@ == e + old(dst)@.skip(e.len() as int)
            } else {
                r is None && final(dst)@ == old(dst)@
            }
        }),
{
    let r = encode_utf8_at(code, dst, 0);
    assert(old(dst)@.take(0) + encode_scalar(code as u32) =~= encode_scalar(code as u32));
    r
}

/// Appending a character appends its encoding.
pub proof fn lemma_encode_utf8_push(s: Seq<char>, c: char)
    ensures
        encode_utf8(s.push(c)) == encode_utf8(s) + encode_scalar(c as u32),
    decreases s.len(),
{
    if s.len() == 0 {
        assert(s.push(c).drop_first() =~= Seq::<char>::empty());
        assert(encode_utf8(Seq::<char>::empty()) == Seq::<u8>::empty());
        assert(encode_utf8(s) == Seq::<u8>::empty());
        assert(encode_utf8(s.push(c)) =~= encode_scalar(c as u32));
    } else {
        lemma_encode_utf8_push(s.drop_first(), c);
        assert(s.push(c).drop_first() =~= s.drop_first().push(c));
        assert(encode_utf8(s.push(c)) =~= encode_utf8(s) + encode_scalar(c as u32));
    }
}

/// The number of characters, from `i` on, whose encodings fit one after the other in
/// `room` bytes: encoding stops at the first character that does not fit.
pub open spec fn fit_count(cs: Seq<char>, i: int, room: int) -> int
    decreases cs.len() - i,
{
    if i < 0 || i >= cs.len() {
        i
    } else if encode_scalar(cs[i] as u32).len() <= room {
        fit_count(cs, i + 1, room - encode_scalar(cs[i] as u32).len())
    } else {
        i
    }
}

/// How many characters were read and how many bytes written.
pub struct EncodeInto {
    pub read: usize,
    pub written: usize,
}

/// Encodes text as UTF-8 into a buffer from an offset (clamped to its length), as
/// `TextEncoder.encodeInto` does: as many leading characters as fit whole, the rest of the
/// buffer unchanged; none, and nothing written, for a label other than UTF-8.
pub fn text_encode_into(src: &str, label: &str, dst: &mut [u8], offset: usize) -> (r: Option<
    EncodeInto,
>)
    ensures
        !utf8_label(label@) ==> r is None && final(dst)@ == old(dst)@,
        utf8_label(label@) ==> ({
            let off = if offset < old(dst)@.len() {
                offset as int
            } else {
                old(dst)@.len() as int
            };
            let read = fit_count(src@, 0, old(dst)@.len() - off);
            let bytes = encode_utf8(src@.take(read));
            &&& r matches Some(res) && res.read == read && res.written == bytes.len()
            &&& final(dst)@ == old(dst)@.take(off) + bytes + old(dst)@.skip(off + bytes.len())
        }),
{
    if !is_utf8_label(label) {
        return None;
    }
    let off = if offset < dst.len() {
        offset
    } else {
        dst.len()
    };
    let cs = chars_of(src);
    let ghost room = dst@.len() - off;
    let ghost d0 = dst@;
    let dlen = dst.len();
    let mut read: usize = 0;
    let mut written: usize = 0;
    while read < cs.len()
        invariant_except_break
            cs@ == src@,
            d0 == old(dst)@,
            dlen == d0.len(),
            dst@.len() == d0.len(),
            off <= d0.len(),
            room == d0.len() - off,
            0 <= read <= cs@.len(),
            written == encode_utf8(cs@.take(read as int)).len(),
            off + written <= d0.len(),
            fit_count(cs@, read as int, room - written) == fit_count(cs@, 0, room),
            dst@ == d0.take(off as int) + encode_utf8(cs@.take(read as int)) + d0.skip(
                off + written,
            ),
        ensures
            cs@ == src@,
            0 <= read <= cs@.len(),
            written == encode_utf8(cs@.take(read as int)).len(),
            read == fit_count(cs@, 0, room),
            dst@ == d0.take(off as int) + encode_utf8(cs@.take(read as int)) + d0.skip(
                off + written,
            ),
        decreases cs@.len() - read,
    {
        let c = cs[read];
        let ghost before = dst@;
        match encode_utf8_at(c, dst, off + written) {
            Some(n) => {
                proof {
                    let e = encode_scalar(c as u32);
                    lemma_encode_utf8_push(cs@.take(read as int), c);
                    assert(cs@.take(read + 1) =~= cs@.take(read as int).push(c));
                    assert(dst@ =~= d0.take(off as int) + encode_utf8(cs@.take(read + 1)) + d0.skip(
                        off + written + n,
                    ));
                }
                written = written + n;
            },
            None => {
                break ;
            },
        }
        read = read + 1;
    }
    Some(EncodeInto { read, written })
}

/// Decoding what `text_encode` gives, under a UTF-8 label, gives the text back: the
/// encoding is well-formed and decodes to the characters it came from.
pub proof fn lemma_encode_decode_roundtrip(s: Seq<char>)
    ensures
        valid_utf8(encode_utf8(s)),
        decode_utf8(encode_utf8(s)) == s,
{
    broadcast use vstd::utf8::encode_utf8_valid_utf8, vstd::utf8::encode_utf8_decode_utf8;

    assert(valid_utf8(encode_utf8(s)));
    assert(decode_utf8(encode_utf8(s)) == s);
}

} // verus!
