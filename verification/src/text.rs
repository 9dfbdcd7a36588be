use vstd::prelude::*;
use vstd::utf8::*;

verus! {

broadcast use vstd::string::group_string_axioms;

/// `std::str::from_utf8`: it succeeds exactly when the bytes are well-formed UTF-8,
/// and the text it gives back is the decoding of those bytes.
#[verifier::external_body]
pub(crate) fn utf8_str(bytes: &[u8]) -> (r: Option<&str>)
    ensures
        r is Some <==> valid_utf8(bytes@),
        r matches Some(s) ==> s@ == decode_utf8(bytes@),
{
    std::str::from_utf8(bytes).ok()
}

/// The characters of a string, in order.
pub fn chars_of(s: &str) -> (r: Vec<char>)
    ensures
        r@ == s@,
{
    let mut out: Vec<char> = Vec::new();
    for c in it: s.chars()
        invariant
            out@ == it.seq().take(it.index() as int),
            it.seq() == s@,
    {
        out.push(c);
    }
    out
}

/// Whether two byte sequences are equal.
pub fn bytes_eq(a: &[u8], b: &[u8]) -> (r: bool)
    ensures
        r == (a@ == b@),
{
    if a.len() != b.len() {
        return false;
    }
    let mut i: usize = 0;
    while i < a.len()
        invariant
            a@.len() == b@.len(),
            i <= a@.len(),
            forall|j: int| 0 <= j < i ==> a@[j] == b@[j],
        decreases a@.len() - i,
    {
        if a[i] != b[i] {
            return false;
        }
        i = i + 1;
    }
    assert(a@ =~= b@);
    true
}

/// Whether two strings hold the same characters.
pub fn str_eq(a: &str, b: &str) -> (r: bool)
    ensures
        r == (a@ == b@),
{
    let r = bytes_eq(a.as_bytes(), b.as_bytes());
    proof {
        encode_utf8_decode_utf8(a@);
        encode_utf8_decode_utf8(b@);
    }
    r
}

/// `String::from_iter` over characters: the string holds exactly those characters, in order.
#[verifier::external_body]
pub(crate) fn string_from_chars(v: Vec<char>) -> (r: String)
    ensures
        r@ == v@,
{
    String::from_iter(v)
}

/// The characters that `char::is_whitespace` accepts: those with the Unicode
/// `White_Space` property.
pub open spec fn is_ws(c: char) -> bool {
    ||| c == '\t'
    ||| c == '\n'
    ||| c == '\u{0B}'
    ||| c == '\u{0C}'
    ||| c == '\r'
    ||| c == ' '
    ||| c == '\u{85}'
    ||| c == '\u{A0}'
    ||| c == '\u{1680}'
    ||| ('\u{2000}' <= c && c <= '\u{200A}')
    ||| c == '\u{2028}'
    ||| c == '\u{2029}'
    ||| c == '\u{202F}'
    ||| c == '\u{205F}'
    ||| c == '\u{3000}'
}

/// Whether a character is white space, as `char::is_whitespace` decides it.
pub fn is_whitespace(c: char) -> (r: bool)
    ensures
        r == is_ws(c),
{
    c == '\t' || c == '\n' || c == '\u{0B}' || c == '\u{0C}' || c == '\r' || c == ' '
        || c == '\u{85}' || c == '\u{A0}' || c == '\u{1680}' || ('\u{2000}' <= c && c <= '\u{200A}')
        || c == '\u{2028}' || c == '\u{2029}' || c == '\u{202F}' || c == '\u{205F}'
        || c == '\u{3000}'
}

/// The first index at or after `i` whose character is not white space, or the length.
pub open spec fn skip_ws(cs: Seq<char>, i: int) -> int
    decreases cs.len() - i,
{
    if 0 <= i < cs.len() && is_ws(cs[i]) {
        skip_ws(cs, i + 1)
    } else {
        i
    }
}

/// The first index at or after `i` whose character is white space, or the length.
pub open spec fn skip_non_ws(cs: Seq<char>, i: int) -> int
    decreases cs.len() - i,
{
    if 0 <= i < cs.len() && !is_ws(cs[i]) {
        skip_non_ws(cs, i + 1)
    } else {
        i
    }
}

/// The first index at or after `i` that holds `c`, or the length.
pub open spec fn find_char(cs: Seq<char>, i: int, c: char) -> int
    decreases cs.len() - i,
{
    if 0 <= i < cs.len() && cs[i] != c {
        find_char(cs, i + 1, c)
    } else {
        i
    }
}

/// The length that is left of the first `n` characters once trailing white space is removed.
pub open spec fn trim_end_len(cs: Seq<char>, n: int) -> int
    decreases n,
{
    if 0 < n <= cs.len() && is_ws(cs[n - 1]) {
        trim_end_len(cs, n - 1)
    } else {
        n
    }
}

/// `str::trim_end`: the text without its trailing white space.
pub open spec fn trim_end(cs: Seq<char>) -> Seq<char> {
    cs.subrange(0, trim_end_len(cs, cs.len() as int))
}

/// `str::trim_start`: the text without its leading white space.
pub open spec fn trim_start(cs: Seq<char>) -> Seq<char> {
    cs.subrange(skip_ws(cs, 0), cs.len() as int)
}

/// `str::trim`: the text without leading and trailing white space.
pub open spec fn trim(cs: Seq<char>) -> Seq<char> {
    trim_start(trim_end(cs))
}

pub proof fn lemma_skip_ws_bounds(cs: Seq<char>, i: int)
    requires
        0 <= i <= cs.len(),
    ensures
        i <= skip_ws(cs, i) <= cs.len(),
        forall|j: int| i <= j < skip_ws(cs, i) ==> is_ws(#[trigger] cs[j]),
        skip_ws(cs, i) < cs.len() ==> !is_ws(cs[skip_ws(cs, i)]),
    decreases cs.len() - i,
{
    if i < cs.len() && is_ws(cs[i]) {
        lemma_skip_ws_bounds(cs, i + 1);
    }
}

pub proof fn lemma_skip_non_ws_bounds(cs: Seq<char>, i: int)
    requires
        0 <= i <= cs.len(),
    ensures
        i <= skip_non_ws(cs, i) <= cs.len(),
        forall|j: int| i <= j < skip_non_ws(cs, i) ==> !is_ws(#[trigger] cs[j]),
        skip_non_ws(cs, i) < cs.len() ==> is_ws(cs[skip_non_ws(cs, i)]),
    decreases cs.len() - i,
{
    if i < cs.len() && !is_ws(cs[i]) {
        lemma_skip_non_ws_bounds(cs, i + 1);
    }
}

pub proof fn lemma_find_char_bounds(cs: Seq<char>, i: int, c: char)
    requires
        0 <= i <= cs.len(),
    ensures
        i <= find_char(cs, i, c) <= cs.len(),
        forall|j: int| i <= j < find_char(cs, i, c) ==> #[trigger] cs[j] != c,
        find_char(cs, i, c) < cs.len() ==> cs[find_char(cs, i, c)] == c,
    decreases cs.len() - i,
{
    if i < cs.len() && cs[i] != c {
        lemma_find_char_bounds(cs, i + 1, c);
    }
}

pub proof fn lemma_trim_end_len_bounds(cs: Seq<char>, n: int)
    requires
        0 <= n <= cs.len(),
    ensures
        0 <= trim_end_len(cs, n) <= n,
    decreases n,
{
    if 0 < n && is_ws(cs[n - 1]) {
        lemma_trim_end_len_bounds(cs, n - 1);
    }
}

/// The first index at or after `i` whose character is not white space, or the length.
pub fn skip_whitespace(cs: &Vec<char>, i: usize) -> (r: usize)
    requires
        i <= cs@.len(),
    ensures
        r == skip_ws(cs@, i as int),
{
    let mut j = i;
    while j < cs.len() && is_whitespace(cs[j])
        invariant
            i <= j <= cs@.len(),
            skip_ws(cs@, j as int) == skip_ws(cs@, i as int),
        decreases cs@.len() - j,
    {
        j = j + 1;
    }
    j
}

/// The first index at or after `i` whose character is white space, or the length.
pub fn skip_non_whitespace(cs: &Vec<char>, i: usize) -> (r: usize)
    requires
        i <= cs@.len(),
    ensures
        r == skip_non_ws(cs@, i as int),
{
    let mut j = i;
    while j < cs.len() && !is_whitespace(cs[j])
        invariant
            i <= j <= cs@.len(),
            skip_non_ws(cs@, j as int) == skip_non_ws(cs@, i as int),
        decreases cs@.len() - j,
    {
        j = j + 1;
    }
    j
}

/// The first index at or after `i` that holds `c`, or the length.
pub fn find(cs: &Vec<char>, i: usize, c: char) -> (r: usize)
    requires
        i <= cs@.len(),
    ensures
        r == find_char(cs@, i as int, c),
{
    let mut j = i;
    while j < cs.len() && cs[j] != c
        invariant
            i <= j <= cs@.len(),
            find_char(cs@, j as int, c) == find_char(cs@, i as int, c),
        decreases cs@.len() - j,
    {
        j = j + 1;
    }
    j
}

/// The length that is left of the first `n` characters once trailing white space is removed.
pub fn trim_end_length(cs: &Vec<char>, n: usize) -> (r: usize)
    requires
        n <= cs@.len(),
    ensures
        r == trim_end_len(cs@, n as int),
{
    let mut j = n;
    while j > 0 && is_whitespace(cs[j - 1])
        invariant
            j <= n <= cs@.len(),
            trim_end_len(cs@, j as int) == trim_end_len(cs@, n as int),
        decreases j,
    {
        j = j - 1;
    }
    j
}

/// The characters of `cs` from `a` up to `b`, as a new vector.
pub fn sub_chars(cs: &Vec<char>, a: usize, b: usize) -> (r: Vec<char>)
    requires
        a <= b <= cs@.len(),
    ensures
        r@ == cs@.subrange(a as int, b as int),
{
    let mut out: Vec<char> = Vec::new();
    let mut j = a;
    while j < b
        invariant
            a <= j <= b <= cs@.len(),
            out@ == cs@.subrange(a as int, j as int),
        decreases b - j,
    {
        out.push(cs[j]);
        j = j + 1;
        assert(out@ =~= cs@.subrange(a as int, j as int));
    }
    out
}

/// A decimal digit.
pub open spec fn dec_digit(c: char) -> bool {
    '0' <= c && c <= '9'
}

/// A hexadecimal digit, in either case.
pub open spec fn hex_digit(c: char) -> bool {
    dec_digit(c) || ('a' <= c && c <= 'f') || ('A' <= c && c <= 'F')
}

/// A digit of the given radix (10 or 16).
pub open spec fn radix_digit(c: char, radix: int) -> bool {
    if radix == 16 {
        hex_digit(c)
    } else {
        dec_digit(c)
    }
}

/// The value of a decimal or hexadecimal digit.
pub open spec fn digit_value(c: char) -> int {
    if dec_digit(c) {
        c as int - '0' as int
    } else if 'a' <= c && c <= 'f' {
        c as int - 'a' as int + 10
    } else {
        c as int - 'A' as int + 10
    }
}

/// The value of a sequence of digits, most significant first.
pub open spec fn digits_value(cs: Seq<char>, radix: int) -> int
    decreases cs.len(),
{
    if cs.len() == 0 {
        0
    } else {
        digits_value(cs.drop_last(), radix) * radix + digit_value(cs.last())
    }
}

/// The digits of an unsigned number once one leading `+` is dropped.
pub open spec fn unsigned_digits(cs: Seq<char>) -> Seq<char> {
    if cs.len() > 0 && cs[0] == '+' {
        cs.drop_first()
    } else {
        cs
    }
}

/// What `from_str_radix` of an unsigned integer type whose largest value is `max` gives:
/// an optional `+`, then one or more digits of the radix, whose value must not exceed `max`.
pub open spec fn parse_unsigned(cs: Seq<char>, radix: int, max: int) -> Option<int> {
    let d = unsigned_digits(cs);
    if d.len() > 0 && (forall|i: int| 0 <= i < d.len() ==> radix_digit(#[trigger] d[i], radix))
        && digits_value(d, radix) <= max {
        Some(digits_value(d, radix))
    } else {
        None
    }
}

proof fn lemma_digits_value_step(d: Seq<char>, k: int, radix: int)
    requires
        0 <= k < d.len(),
    ensures
        digits_value(d.take(k + 1), radix) == digits_value(d.take(k), radix) * radix + digit_value(
            d[k],
        ),
{
    assert(d.take(k + 1).drop_last() =~= d.take(k));
}

proof fn lemma_digits_value_grows(v: int, radix: int, dv: int)
    by (nonlinear_arith)
    requires
        v >= 0,
        radix >= 1,
        dv >= 0,
    ensures
        v * radix + dv >= v,
{
}

proof fn lemma_digits_value_nonneg(d: Seq<char>, radix: int)
    requires
        radix >= 1,
        forall|i: int| 0 <= i < d.len() ==> radix_digit(#[trigger] d[i], radix),
    ensures
        digits_value(d, radix) >= 0,
    decreases d.len(),
{
    if d.len() > 0 {
        assert forall|i: int| 0 <= i < d.drop_last().len() implies radix_digit(
            #[trigger] d.drop_last()[i],
            radix,
        ) by {
            assert(d.drop_last()[i] == d[i]);
        }
        lemma_digits_value_nonneg(d.drop_last(), radix);
        assert(radix_digit(d[d.len() - 1], radix));
        lemma_digits_value_grows(digits_value(d.drop_last(), radix), radix, digit_value(d.last()));
    }
}

/// A number that parses lies between zero and the largest value allowed.
pub proof fn lemma_parse_unsigned_bounds(cs: Seq<char>, radix: int, max: int)
    requires
        radix == 10 || radix == 16,
        parse_unsigned(cs, radix, max) is Some,
    ensures
        0 <= parse_unsigned(cs, radix, max)->Some_0 <= max,
{
    lemma_digits_value_nonneg(unsigned_digits(cs), radix);
}

/// Whether a character is a digit of the radix (10 or 16), and its value.
fn digit_of(c: char, radix: u32) -> (r: Option<u32>)
    requires
        radix == 10 || radix == 16,
    ensures
        r is Some <==> radix_digit(c, radix as int),
        r matches Some(v) ==> v == digit_value(c) && v < radix,
{
    if '0' <= c && c <= '9' {
        Some((c as u32) - ('0' as u32))
    } else if radix == 16 && 'a' <= c && c <= 'f' {
        Some((c as u32) - ('a' as u32) + 10)
    } else if radix == 16 && 'A' <= c && c <= 'F' {
        Some((c as u32) - ('A' as u32) + 10)
    } else {
        None
    }
}

/// Parses the characters `cs[a..b]` as an unsigned number of the radix (10 or 16),
/// the way `from_str_radix` does for an unsigned type whose largest value is `max`.
pub fn parse_unsigned_range(cs: &Vec<char>, a: usize, b: usize, radix: u32, max: u64) -> (r: Option<
    u64,
>)
    requires
        a <= b <= cs@.len(),
        radix == 10 || radix == 16,
    ensures
        match parse_unsigned(cs@.subrange(a as int, b as int), radix as int, max as int) {
            Some(v) => r is Some && r->0 == v,
            None => r is None,
        },
        r matches Some(v) ==> v <= max,
{
    let ghost whole = cs@.subrange(a as int, b as int);
    let mut start = a;
    if a < b && cs[a] == '+' {
        start = a + 1;
    }
    let ghost d = cs@.subrange(start as int, b as int);
    assert(d =~= unsigned_digits(whole));
    if start == b {
        return None;
    }
    let mut acc: u64 = 0;
    let mut over = false;
    let mut j = start;
    while j < b
        invariant
            a <= start <= j <= b <= cs@.len(),
            d == cs@.subrange(start as int, b as int),
            whole == cs@.subrange(a as int, b as int),
            d == unsigned_digits(whole),
            d.len() > 0,
            radix == 10 || radix == 16,
            forall|i: int| 0 <= i < j - start ==> radix_digit(#[trigger] d[i], radix as int),
            !over ==> acc == digits_value(d.take(j - start), radix as int),
            acc <= max,
            over ==> digits_value(d.take(j - start), radix as int) > max,
        decreases b - j,
    {
        let k: Ghost<int> = Ghost(j - start);
        match digit_of(cs[j], radix) {
            None => {
                assert(d[k@] == cs@[j as int]);
                assert(!radix_digit(d[k@], radix as int));
                assert(d == unsigned_digits(whole));
                return None;
            },
            Some(v) => {
                assert(d[k@] == cs@[j as int]);
                proof {
                    lemma_digits_value_step(d, k@, radix as int);
                    assert forall|i: int| 0 <= i < k@ implies radix_digit(
                        #[trigger] d.take(k@)[i],
                        radix as int,
                    ) by {
                        assert(d.take(k@)[i] == d[i]);
                    }
                    lemma_digits_value_nonneg(d.take(k@), radix as int);
                    lemma_digits_value_grows(
                        digits_value(d.take(k@), radix as int),
                        radix as int,
                        v as int,
                    );
                }
                if !over {
                    let next: u128 = (acc as u128) * (radix as u128) + (v as u128);
                    if next > max as u128 {
                        over = true;
                    } else {
                        acc = next as u64;
                    }
                }
            },
        }
        j = j + 1;
    }
    assert(d.take(b - start) =~= d);
    assert(d == unsigned_digits(whole));
    assert(forall|i: int| 0 <= i < d.len() ==> radix_digit(#[trigger] d[i], radix as int));
    if over {
        None
    } else {
        Some(acc)
    }
}

/// The digit character of a value below 16, in lower case.
pub open spec fn digit_char(d: int) -> char {
    if d < 10 {
        (d + '0' as int) as char
    } else {
        (d - 10 + 'a' as int) as char
    }
}

/// The representation of `n` in the radix (10 or 16), most significant digit first,
/// without leading zeros; lower-case letters for hexadecimal digits.
pub open spec fn radix_chars(n: nat, radix: nat) -> Seq<char>
    decreases n,
{
    if n < radix || radix < 2 {
        seq![digit_char(n as int)]
    } else {
        proof {
            vstd::arithmetic::div_mod::lemma_div_decreases(n as int, radix as int);
        }
        radix_chars(n / radix, radix).push(digit_char((n % radix) as int))
    }
}

fn digit_to_char(d: u64) -> (c: char)
    requires
        d < 16,
    ensures
        c == digit_char(d as int),
{
    if d < 10 {
        ((d as u8) + 48u8) as char
    } else {
        ((d as u8) + 87u8) as char
    }
}

/// Appends the representation of `n` in the radix (10 or 16).
pub fn push_radix(out: &mut Vec<char>, n: u64, radix: u64)
    requires
        radix == 10 || radix == 16,
    ensures
        final(out)@ == old(out)@ + radix_chars(n as nat, radix as nat),
    decreases n,
{
    if n >= radix {
        push_radix(out, n / radix, radix);
    }
    out.push(digit_to_char(n % radix));
    proof {
        if n >= radix {
            assert(old(out)@ + radix_chars(n as nat, radix as nat) =~= old(out)@ + radix_chars(
                (n / radix) as nat,
                radix as nat,
            ) + seq![digit_char((n % radix) as int)]);
        } else {
            assert(n % radix == n);
        }
    }
}

/// The decimal digits of a number are decimal digits, the first of them no `+`, and
/// their value is the number.
pub proof fn lemma_radix_chars_dec(n: nat)
    ensures
        radix_chars(n, 10).len() > 0,
        forall|i: int| 0 <= i < radix_chars(n, 10).len() ==> dec_digit(#[trigger] radix_chars(n, 10)[i]),
        digits_value(radix_chars(n, 10), 10) == n,
    decreases n,
{
    if n < 10 {
        let cs = radix_chars(n, 10);
        assert(cs =~= seq![digit_char(n as int)]);
        assert(cs.drop_last() =~= Seq::<char>::empty());
        assert(digits_value(cs.drop_last(), 10) == 0);
    } else {
        vstd::arithmetic::div_mod::lemma_div_decreases(n as int, 10);
        lemma_radix_chars_dec(n / 10);
        let prefix = radix_chars(n / 10, 10);
        let cs = radix_chars(n, 10);
        assert(cs == prefix.push(digit_char((n % 10) as int)));
        assert(cs.drop_last() =~= prefix);
        assert forall|i: int| 0 <= i < cs.len() implies dec_digit(#[trigger] cs[i]) by {
            if i < prefix.len() {
                assert(cs[i] == prefix[i]);
            }
        }
        vstd::arithmetic::div_mod::lemma_fundamental_div_mod(n as int, 10);
    }
}

/// Reading the decimal digits of a number back gives the number, when it is no larger
/// than the largest value allowed.
pub proof fn lemma_parse_radix_chars(n: nat, max: int)
    requires
        n <= max,
    ensures
        parse_unsigned(radix_chars(n, 10), 10, max) == Some(n as int),
{
    lemma_radix_chars_dec(n);
    let cs = radix_chars(n, 10);
    assert(dec_digit(cs[0]));
    assert(unsigned_digits(cs) == cs);
}

} // verus!
