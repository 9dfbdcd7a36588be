//! Byte strings: concatenation, hexadecimal text and comparison in constant time.
use vstd::prelude::*;
use crate::http::ascii_lower;
use crate::text::{hex_digit, digit_value, digit_char, string_from_chars, chars_of};

verus! {

broadcast use vstd::seq_lib::group_seq_properties;

/// The concatenation of a list of byte strings.
pub open spec fn concat_all(parts: Seq<Vec<u8>>) -> Seq<u8> {
    parts.map_values(|v: Vec<u8>| v@).flatten()
}

/// Concatenates a list of byte strings.
pub fn concat_parts(parts: &[Vec<u8>]) -> (r: Vec<u8>)
    ensures
        r@ == concat_all(parts@),
{
    let mut out: Vec<u8> = Vec::new();
    let mut i: usize = 0;
    while i < parts.len()
        invariant
            0 <= i <= parts@.len(),
            out@ == concat_all(parts@.take(i as int)),
        decreases parts@.len() - i,
    {
        let ghost before = out@;
        append_bytes(&mut out, parts[i].as_slice());
        proof {
            let m = parts@.take(i as int).map_values(|v: Vec<u8>| v@);
            assert(parts@.take(i + 1).map_values(|v: Vec<u8>| v@) =~= m.push(parts@[i as int]@));
            m.lemma_flatten_push(parts@[i as int]@);
        }
        i = i + 1;
    }
    assert(parts@.take(parts@.len() as int) =~= parts@);
    out
}

/// Appends bytes.
pub fn append_bytes(out: &mut Vec<u8>, data: &[u8])
    ensures
        final(out)@ == old(out)@ + data@,
{
    let mut i: usize = 0;
    while i < data.len()
        invariant
            0 <= i <= data@.len(),
            out@ == old(out)@ + data@.subrange(0, i as int),
        decreases data@.len() - i,
    {
        out.push(data[i]);
        i = i + 1;
        assert(out@ =~= old(out)@ + data@.subrange(0, i as int));
    }
    assert(data@.subrange(0, data@.len() as int) =~= data@);
}

/// The lower-case hexadecimal text of bytes: two digits per byte.
pub open spec fn hex_text(bytes: Seq<u8>) -> Seq<char>
    decreases bytes.len(),
{
    if bytes.len() == 0 {
        seq![]
    } else {
        hex_text(bytes.drop_last()) + seq![
            digit_char(bytes.last() as int / 16),
            digit_char(bytes.last() as int % 16),
        ]
    }
}

/// The bytes that a hexadecimal text stands for, two digits per byte; nothing when the
/// text has an odd length or a character that is no hexadecimal digit.
pub open spec fn hex_bytes(s: Seq<char>) -> Option<Seq<u8>> {
    if s.len() % 2 != 0 || exists|i: int| 0 <= i < s.len() && !hex_digit(#[trigger] s[i]) {
        None
    } else {
        Some(
            Seq::new(
                s.len() / 2,
                |k: int| (digit_value(s[2 * k]) * 16 + digit_value(s[2 * k + 1])) as u8,
            ),
        )
    }
}

fn hex_digit_char(d: u8) -> (c: char)
    requires
        d < 16,
    ensures
        c == digit_char(d as int),
{
    if d < 10 {
        (d + 48u8) as char
    } else {
        (d + 87u8) as char
    }
}

/// Converts bytes to lower-case hexadecimal text, as `Buffer.from(arr).toString("hex")`
/// does.
pub fn u8array_to_hex(arr: &[u8]) -> (r: String)
    ensures
        r@ == hex_text(arr@),
{
    let mut out: Vec<char> = Vec::new();
    let mut i: usize = 0;
    while i < arr.len()
        invariant
            0 <= i <= arr@.len(),
            out@ == hex_text(arr@.take(i as int)),
        decreases arr@.len() - i,
    {
        let b = arr[i];
        out.push(hex_digit_char(b / 16));
        out.push(hex_digit_char(b % 16));
        assert(arr@.take(i + 1).drop_last() =~= arr@.take(i as int));
        i = i + 1;
    }
    assert(arr@.take(arr@.len() as int) =~= arr@);
    string_from_chars(out)
}

fn hex_value(c: char) -> (r: u8)
    requires
        hex_digit(c),
    ensures
        r == digit_value(c),
{
    if '0' <= c && c <= '9' {
        ((c as u32) - 48) as u8
    } else if 'a' <= c && c <= 'f' {
        ((c as u32) - 87) as u8
    } else {
        ((c as u32) - 55) as u8
    }
}

/// Converts hexadecimal text to the bytes it stands for, as `hex_bytes` says.
pub fn hex_to_u8array(arr: &str) -> (r: Option<Vec<u8>>)
    ensures
        match hex_bytes(arr@) {
            Some(b) => r matches Some(v) && v@ == b,
            None => r is None,
        },
{
    let cs = chars_of(arr);
    let mut i: usize = 0;
    while i < cs.len()
        invariant
            0 <= i <= cs@.len(),
            cs@ == arr@,
            forall|j: int| 0 <= j < i ==> hex_digit(#[trigger] cs@[j]),
        decreases cs@.len() - i,
    {
        let c = cs[i];
        if !(('0' <= c && c <= '9') || ('a' <= c && c <= 'f') || ('A' <= c && c <= 'F')) {
            assert(!hex_digit(cs@[i as int]));
            return None;
        }
        i = i + 1;
    }
    if cs.len() % 2 != 0 {
        return None;
    }
    let mut out: Vec<u8> = Vec::new();
    let mut k: usize = 0;
    while k < cs.len() / 2
        invariant
            0 <= k <= cs@.len() / 2,
            cs@ == arr@,
            cs@.len() % 2 == 0,
            forall|j: int| 0 <= j < cs@.len() ==> hex_digit(#[trigger] cs@[j]),
            out@.len() == k,
            forall|j: int|
                0 <= j < k ==> #[trigger] out@[j] == (digit_value(cs@[2 * j]) * 16 + digit_value(
                    cs@[2 * j + 1],
                )) as u8,
        decreases cs@.len() / 2 - k,
    {
        let hi = hex_value(cs[2 * k]);
        let lo = hex_value(cs[2 * k + 1]);
        out.push(hi * 16 + lo);
        k = k + 1;
    }
    assert(out@ =~= hex_bytes(arr@)->Some_0);
    Some(out)
}

/// Compares the first buffer with the start of the second, looking at every byte whatever
/// the earlier ones were.
pub fn timing_safe_equal(a: &[u8], b: &[u8]) -> (r: bool)
    requires
        b@.len() >= a@.len(),
    ensures
        r == (a@ == b@.subrange(0, a@.len() as int)),
{
    let mut eq = true;
    let mut i: usize = 0;
    while i < a.len()
        invariant
            b@.len() >= a@.len(),
            0 <= i <= a@.len(),
            eq == (a@.subrange(0, i as int) == b@.subrange(0, i as int)),
        decreases a@.len() - i,
    {
        proof {
            assert(a@.subrange(0, i + 1) == a@.subrange(0, i as int).push(a@[i as int]));
            assert(b@.subrange(0, i + 1) == b@.subrange(0, i as int).push(b@[i as int]));
            if a@.subrange(0, i + 1) == b@.subrange(0, i + 1) {
                assert(a@.subrange(0, i + 1)[i as int] == b@.subrange(0, i + 1)[i as int]);
                assert(a@.subrange(0, i as int) =~= a@.subrange(0, i + 1).drop_last());
                assert(b@.subrange(0, i as int) =~= b@.subrange(0, i + 1).drop_last());
            }
        }
        let same = a[i] == b[i];
        if !same {
            eq = false;
        }
        i = i + 1;
    }
    assert(a@.subrange(0, a@.len() as int) =~= a@);
    eq
}


/// A digit character of a value below 16 is a hexadecimal digit with that value.
pub proof fn lemma_digit_char_value(d: int)
    requires
        0 <= d < 16,
    ensures
        hex_digit(digit_char(d)),
        digit_value(digit_char(d)) == d,
{
}

/// The hexadecimal text of bytes has two characters per byte: the digit of its high half,
/// then the digit of its low half.
pub proof fn lemma_hex_text_digits(bytes: Seq<u8>)
    ensures
        hex_text(bytes).len() == 2 * bytes.len(),
        forall|k: int|
            0 <= k < bytes.len() ==> #[trigger] hex_text(bytes)[2 * k] == digit_char(
                bytes[k] as int / 16,
            ) && hex_text(bytes)[2 * k + 1] == digit_char(bytes[k] as int % 16),
    decreases bytes.len(),
{
    if bytes.len() > 0 {
        lemma_hex_text_digits(bytes.drop_last());
        let prev = hex_text(bytes.drop_last());
        assert forall|k: int| 0 <= k < bytes.len() implies #[trigger] hex_text(bytes)[2 * k]
            == digit_char(bytes[k] as int / 16) && hex_text(bytes)[2 * k + 1] == digit_char(
            bytes[k] as int % 16,
        ) by {
            if k < bytes.len() - 1 {
                assert(bytes.drop_last()[k] == bytes[k]);
                assert(prev[2 * k] == digit_char(bytes.drop_last()[k] as int / 16));
            }
        }
    }
}

/// Reading back the hexadecimal text of bytes gives the bytes.
pub proof fn lemma_hex_roundtrip(bytes: Seq<u8>)
    ensures
        hex_bytes(hex_text(bytes)) == Some(bytes),
{
    let t = hex_text(bytes);
    lemma_hex_text_digits(bytes);
    assert forall|i: int| 0 <= i < t.len() implies hex_digit(#[trigger] t[i]) by {
        let k = i / 2;
        assert(0 <= k < bytes.len());
        assert(hex_text(bytes)[2 * k] == digit_char(bytes[k] as int / 16));
        assert(t[2 * k + 1] == digit_char(bytes[k] as int % 16));
        lemma_digit_char_value(bytes[k] as int / 16);
        lemma_digit_char_value(bytes[k] as int % 16);
        if i == 2 * k {
            assert(hex_digit(t[2 * k]));
        } else {
            assert(i == 2 * k + 1);
            assert(hex_digit(t[2 * k + 1]));
        }
    }
    assert(t.len() % 2 == 0);
    let back = Seq::new(
        t.len() / 2,
        |k: int| (digit_value(t[2 * k]) * 16 + digit_value(t[2 * k + 1])) as u8,
    );
    assert forall|k: int| 0 <= k < bytes.len() implies back[k] == bytes[k] by {
        assert(hex_text(bytes)[2 * k] == digit_char(bytes[k] as int / 16));
        assert(t[2 * k + 1] == digit_char(bytes[k] as int % 16));
        lemma_digit_char_value(bytes[k] as int / 16);
        lemma_digit_char_value(bytes[k] as int % 16);
    }
    assert(back =~= bytes);
}

/// A hexadecimal digit printed back from its value is the digit in lower case.
pub proof fn lemma_digit_value_char(c: char)
    requires
        hex_digit(c),
    ensures
        0 <= digit_value(c) < 16,
        digit_char(digit_value(c)) == ascii_lower(seq![c])[0],
{
}

/// Printing the bytes that a hexadecimal text stands for gives that text in lower case.
pub proof fn lemma_hex_text_of_parsed(s: Seq<char>)
    requires
        hex_bytes(s) is Some,
    ensures
        hex_text(hex_bytes(s)->Some_0) == ascii_lower(s),
{
    let b = hex_bytes(s)->Some_0;
    let t = hex_text(b);
    lemma_hex_text_digits(b);
    assert forall|i: int| 0 <= i < s.len() implies hex_digit(#[trigger] s[i]) by {
        if !hex_digit(s[i]) {
            assert(hex_bytes(s) is None);
        }
    }
    assert forall|i: int| 0 <= i < s.len() implies t[i] == ascii_lower(s)[i] by {
        let k = i / 2;
        let hi = digit_value(s[2 * k]);
        let lo = digit_value(s[2 * k + 1]);
        lemma_digit_value_char(s[2 * k]);
        lemma_digit_value_char(s[2 * k + 1]);
        assert(b[k] == (hi * 16 + lo) as u8);
        assert((hi * 16 + lo) as u8 as int / 16 == hi && (hi * 16 + lo) as u8 as int % 16 == lo)
            by (nonlinear_arith)
            requires
                0 <= hi < 16,
                0 <= lo < 16,
        {
            assert(0 <= hi * 16 + lo < 256);
        }
        assert(t[2 * k] == digit_char(b[k] as int / 16));
        if i == 2 * k {
            assert(ascii_lower(seq![s[i]])[0] == ascii_lower(s)[i]);
        } else {
            assert(i == 2 * k + 1);
            assert(ascii_lower(seq![s[i]])[0] == ascii_lower(s)[i]);
        }
    }
    assert(t =~= ascii_lower(s));
}

/// Feeding pieces one after the other, as `update` does, builds their concatenation: no
/// pieces give nothing, and one more piece is appended at the end. So `hmac` and `hash`,
/// which digest the concatenation at once, give what `Hmac` and `Hash` give after an
/// `update` with each piece.
pub proof fn lemma_concat_one_more(parts: Seq<Vec<u8>>, k: int)
    requires
        0 <= k < parts.len(),
    ensures
        concat_all(parts.take(0)) == Seq::<u8>::empty(),
        concat_all(parts.take(k + 1)) == concat_all(parts.take(k)) + parts[k]@,
        concat_all(parts.take(parts.len() as int)) == concat_all(parts),
{
    let m = parts.take(k).map_values(|v: Vec<u8>| v@);
    assert(parts.take(k + 1).map_values(|v: Vec<u8>| v@) =~= m.push(parts[k]@));
    m.lemma_flatten_push(parts[k]@);
    assert(parts.take(0).map_values(|v: Vec<u8>| v@) =~= Seq::<Seq<u8>>::empty());
    assert(Seq::<Seq<u8>>::empty().flatten() =~= Seq::<u8>::empty());
    assert(parts.take(parts.len() as int) =~= parts);
}

} // verus!
