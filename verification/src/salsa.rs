//! The memory-hard core of scrypt: the Salsa20/8 core, BlockMix and ROMix over byte
//! blocks, as RFC 7914 describes them.
use vstd::prelude::*;

verus! {

/// Addition of 32-bit words modulo 2^32.
pub open spec fn wadd(a: u32, b: u32) -> u32 {
    if a + b > u32::MAX {
        (a + b - 0x1_0000_0000) as u32
    } else {
        (a + b) as u32
    }
}

/// Rotation of a 32-bit word to the left by `k` bits, `0 < k < 32`.
pub open spec fn rotl(x: u32, k: u32) -> u32 {
    (x << k) | (x >> ((32 - k) as u32))
}

/// The little-endian 32-bit word that starts at byte `i`.
pub open spec fn le_word(s: Seq<u8>, i: int) -> u32 {
    (s[i] + s[i + 1] * 0x100 + s[i + 2] * 0x1_0000 + s[i + 3] * 0x100_0000) as u32
}

/// Byte `k` (0 to 3, least significant first) of a 32-bit word.
pub open spec fn word_byte(w: u32, k: int) -> u8 {
    if k == 0 {
        (w % 0x100) as u8
    } else if k == 1 {
        ((w / 0x100) % 0x100) as u8
    } else if k == 2 {
        ((w / 0x1_0000) % 0x100) as u8
    } else {
        ((w / 0x100_0000) % 0x100) as u8
    }
}

/// The byte-wise exclusive or of two byte strings, as long as the first.
pub open spec fn xor_seq(a: Seq<u8>, b: Seq<u8>) -> Seq<u8> {
    Seq::new(a.len(), |k: int| a[k] ^ b[k])
}

/// The Salsa20 quarter-round on the words at `a`, `b`, `c` and `d`.
pub open spec fn quarter(x: Seq<u32>, a: int, b: int, c: int, d: int) -> Seq<u32> {
    let x1 = x.update(b, x[b] ^ rotl(wadd(x[a], x[d]), 7));
    let x2 = x1.update(c, x1[c] ^ rotl(wadd(x1[b], x1[a]), 9));
    let x3 = x2.update(d, x2[d] ^ rotl(wadd(x2[c], x2[b]), 13));
    x3.update(a, x3[a] ^ rotl(wadd(x3[d], x3[c]), 18))
}

/// A Salsa20 double round: the four column rounds, then the four row rounds.
#[verifier::opaque]
pub open spec fn double_round(x: Seq<u32>) -> Seq<u32> {
    let c = quarter(quarter(quarter(quarter(x, 0, 4, 8, 12), 5, 9, 13, 1), 10, 14, 2, 6), 15, 3, 7, 11);
    quarter(quarter(quarter(quarter(c, 0, 1, 2, 3), 5, 6, 7, 4), 10, 11, 8, 9), 15, 12, 13, 14)
}

/// The Salsa20/8 core on a 64-byte block: four double rounds over its sixteen
/// little-endian words, each word then added to its input word.
#[verifier::opaque]
pub open spec fn salsa20_8(block: Seq<u8>) -> Seq<u8> {
    let w = Seq::new(16, |i: int| le_word(block, 4 * i));
    let x = double_round(double_round(double_round(double_round(w))));
    Seq::new(64, |k: int| word_byte(wadd(w[k / 4], x[k / 4]), k % 4))
}

/// Output block `i` of BlockMix before the shuffle: the Salsa20/8 core of the previous
/// output (the last input block, for the first) xor input block `i`.
pub open spec fn mix_y(x: Seq<u8>, r: nat, i: nat) -> Seq<u8>
    decreases i,
{
    let prev = if i == 0 {
        x.subrange((2 * r - 1) * 64, (2 * r * 64) as int)
    } else {
        mix_y(x, r, (i - 1) as nat)
    };
    salsa20_8(xor_seq(prev, x.subrange((i * 64) as int, (i * 64 + 64) as int)))
}

/// BlockMix of `2r` 64-byte blocks: the even outputs first, then the odd ones.
pub open spec fn blockmix(x: Seq<u8>, r: nat) -> Seq<u8> {
    Seq::new(
        128 * r,
        |p: int|
            if p < 64 * r {
                mix_y(x, r, (2 * (p / 64)) as nat)[p % 64]
            } else {
                mix_y(x, r, (2 * ((p - 64 * r) / 64) + 1) as nat)[(p - 64 * r) % 64]
            },
    )
}

/// BlockMix applied `k` times.
pub open spec fn blockmix_n(b: Seq<u8>, r: nat, k: nat) -> Seq<u8>
    decreases k,
{
    if k == 0 {
        b
    } else {
        blockmix(blockmix_n(b, r, (k - 1) as nat), r)
    }
}

/// The index that ROMix reads from a block: the little-endian word at the start of its
/// last 64 bytes, masked with `n - 1`.
pub open spec fn integerify(x: Seq<u8>, r: nat, n: nat) -> nat {
    ((le_word(x, (2 * r - 1) * 64) as usize) & ((n - 1) as usize)) as nat
}

/// The second half of ROMix after `t` steps, each mixing in the stored block that the
/// current one points to.
pub open spec fn romix_steps(b: Seq<u8>, r: nat, n: nat, t: nat) -> Seq<u8>
    decreases t,
{
    if t == 0 {
        blockmix_n(b, r, n)
    } else {
        let x = romix_steps(b, r, n, (t - 1) as nat);
        blockmix(xor_seq(x, blockmix_n(b, r, integerify(x, r, n))), r)
    }
}

/// ROMix of one `128r`-byte block with cost `n`.
pub open spec fn romix(b: Seq<u8>, r: nat, n: nat) -> Seq<u8> {
    romix_steps(b, r, n, n)
}

/// The first `i` blocks of `128r` bytes, each replaced by its ROMix, one after the other.
pub open spec fn rom_blocks(b: Seq<u8>, r: nat, n: nat, i: nat) -> Seq<u8>
    decreases i,
{
    if i == 0 {
        seq![]
    } else {
        rom_blocks(b, r, n, (i - 1) as nat) + romix(
            b.subrange((i - 1) * 128 * r, (i * 128 * r) as int),
            r,
            n,
        )
    }
}

proof fn lemma_div64(p: int, m: int)
    requires
        m >= 0,
        64 * m <= p < 64 * m + 64,
    ensures
        p / 64 == m,
        p % 64 == p - 64 * m,
{
    vstd::arithmetic::div_mod::lemma_fundamental_div_mod_converse(p, 64, m, p - 64 * m);
}

fn rotl_word(x: u32, k: u32) -> (r: u32)
    requires
        0 < k < 32,
    ensures
        r == rotl(x, k),
{
    (x << k) | (x >> (32 - k))
}

fn quarter_round(x: &mut Vec<u32>, a: usize, b: usize, c: usize, d: usize)
    requires
        old(x)@.len() == 16,
        a < 16,
        b < 16,
        c < 16,
        d < 16,
    ensures
        final(x)@ == quarter(old(x)@, a as int, b as int, c as int, d as int),
{
    let t = x[b] ^ rotl_word(x[a].wrapping_add(x[d]), 7);
    x.set(b, t);
    let t = x[c] ^ rotl_word(x[b].wrapping_add(x[a]), 9);
    x.set(c, t);
    let t = x[d] ^ rotl_word(x[c].wrapping_add(x[b]), 13);
    x.set(d, t);
    let t = x[a] ^ rotl_word(x[d].wrapping_add(x[c]), 18);
    x.set(a, t);
}

fn double_round_words(x: &mut Vec<u32>)
    requires
        old(x)@.len() == 16,
    ensures
        final(x)@ == double_round(old(x)@),
        final(x)@.len() == 16,
{
    reveal(double_round);
    quarter_round(x, 0, 4, 8, 12);
    quarter_round(x, 5, 9, 13, 1);
    quarter_round(x, 10, 14, 2, 6);
    quarter_round(x, 15, 3, 7, 11);
    quarter_round(x, 0, 1, 2, 3);
    quarter_round(x, 5, 6, 7, 4);
    quarter_round(x, 10, 11, 8, 9);
    quarter_round(x, 15, 12, 13, 14);
}

fn read_word(s: &[u8], i: usize) -> (r: u32)
    requires
        i + 4 <= s@.len(),
    ensures
        r == le_word(s@, i as int),
{
    (s[i] as u32) + (s[i + 1] as u32) * 0x100 + (s[i + 2] as u32) * 0x1_0000 + (s[i + 3] as u32)
        * 0x100_0000
}

/// The Salsa20/8 core of a 64-byte block.
pub fn salsa20_8_block(block: &[u8]) -> (r: Vec<u8>)
    requires
        block@.len() == 64,
    ensures
        r@ == salsa20_8(block@),
        r@.len() == 64,
{
    reveal(salsa20_8);
    let mut w: Vec<u32> = Vec::new();
    let mut i: usize = 0;
    while i < 16
        invariant
            block@.len() == 64,
            0 <= i <= 16,
            w@.len() == i,
            forall|j: int| 0 <= j < i ==> #[trigger] w@[j] == le_word(block@, 4 * j),
        decreases 16 - i,
    {
        w.push(read_word(block, 4 * i));
        i = i + 1;
    }
    let ghost w0 = w@;
    assert(w0 =~= Seq::new(16, |i: int| le_word(block@, 4 * i)));
    let mut x = w.clone();
    double_round_words(&mut x);
    double_round_words(&mut x);
    double_round_words(&mut x);
    double_round_words(&mut x);
    let ghost xs = x@;
    let mut out: Vec<u8> = Vec::new();
    let mut i: usize = 0;
    while i < 16
        invariant
            0 <= i <= 16,
            w@ == w0,
            x@ == xs,
            w0.len() == 16,
            xs.len() == 16,
            out@.len() == 4 * i,
            forall|k: int|
                0 <= k < 4 * i ==> #[trigger] out@[k] == word_byte(wadd(w0[k / 4], xs[k / 4]), k % 4),
        decreases 16 - i,
    {
        let z = w[i].wrapping_add(x[i]);
        out.push((z % 0x100) as u8);
        out.push(((z / 0x100) % 0x100) as u8);
        out.push(((z / 0x1_0000) % 0x100) as u8);
        out.push(((z / 0x100_0000) % 0x100) as u8);
        i = i + 1;
    }
    assert(out@ =~= salsa20_8(block@));
    out
}

/// Copies `len` bytes starting at `start`.
fn sub_bytes(s: &[u8], start: usize, len: usize) -> (r: Vec<u8>)
    requires
        start + len <= s@.len(),
    ensures
        r@ == s@.subrange(start as int, start + len),
{
    let n = s.len();
    let mut out: Vec<u8> = Vec::new();
    let mut k: usize = 0;
    while k < len
        invariant
            n == s@.len(),
            start + len <= s@.len(),
            0 <= k <= len,
            out@ == s@.subrange(start as int, start + k),
        decreases len - k,
    {
        out.push(s[start + k]);
        k = k + 1;
        assert(out@ =~= s@.subrange(start as int, start + k));
    }
    out
}

/// The byte-wise exclusive or of two byte strings, as long as the first.
pub fn xor_block(a: &[u8], b: &[u8]) -> (r: Vec<u8>)
    requires
        b@.len() >= a@.len(),
    ensures
        r@ == xor_seq(a@, b@),
{
    let mut out: Vec<u8> = Vec::new();
    let mut k: usize = 0;
    while k < a.len()
        invariant
            b@.len() >= a@.len(),
            0 <= k <= a@.len(),
            out@.len() == k,
            forall|q: int| 0 <= q < k ==> #[trigger] out@[q] == a@[q] ^ b@[q],
        decreases a@.len() - k,
    {
        out.push(a[k] ^ b[k]);
        k = k + 1;
    }
    assert(out@ =~= xor_seq(a@, b@));
    out
}

/// BlockMix of `2r` 64-byte blocks.
pub fn blockmix_block(x: &[u8], r: usize) -> (out: Vec<u8>)
    requires
        r >= 1,
        x@.len() == 128 * r,
        128 * r <= usize::MAX,
    ensures
        out@ == blockmix(x@, r as nat),
        out@.len() == 128 * r,
{
    let ghost xs = x@;
    let mut ys: Vec<Vec<u8>> = Vec::new();
    let mut prev = sub_bytes(x, (2 * r - 1) * 64, 64);
    let mut i: usize = 0;
    while i < 2 * r
        invariant
            r >= 1,
            128 * r <= usize::MAX,
            x@ == xs,
            xs.len() == 128 * r,
            0 <= i <= 2 * r,
            ys@.len() == i,
            forall|j: int| 0 <= j < i ==> (#[trigger] ys@[j])@ == mix_y(xs, r as nat, j as nat),
            forall|j: int| 0 <= j < i ==> (#[trigger] ys@[j])@.len() == 64,
            prev@.len() == 64,
            i == 0 ==> prev@ == xs.subrange((2 * r - 1) * 64, 2 * r * 64),
            i > 0 ==> prev@ == mix_y(xs, r as nat, (i - 1) as nat),
        decreases 2 * r - i,
    {
        let blk = sub_bytes(x, i * 64, 64);
        let t = xor_block(prev.as_slice(), blk.as_slice());
        let y = salsa20_8_block(t.as_slice());
        ys.push(y.clone());
        prev = y;
        i = i + 1;
    }
    let mut out: Vec<u8> = Vec::new();
    let mut i: usize = 0;
    while i < 2 * r
        invariant
            r >= 1,
            128 * r <= usize::MAX,
            xs.len() == 128 * r,
            ys@.len() == 2 * r,
            forall|j: int| 0 <= j < 2 * r ==> (#[trigger] ys@[j])@ == mix_y(xs, r as nat, j as nat),
            forall|j: int| 0 <= j < 2 * r ==> (#[trigger] ys@[j])@.len() == 64,
            0 <= i <= 2 * r,
            i % 2 == 0,
            out@.len() == 32 * i,
            forall|p: int|
                0 <= p < out@.len() ==> #[trigger] out@[p] == mix_y(xs, r as nat, (2 * (p / 64)) as nat)[p % 64],
        decreases 2 * r - i,
    {
        let y = &ys[i];
        let ghost base = out@.len() as int;
        let mut k: usize = 0;
        while k < 64
            invariant
                y@ == mix_y(xs, r as nat, i as nat),
                y@.len() == 64,
                base == 32 * i,
                i % 2 == 0,
                0 <= k <= 64,
                out@.len() == base + k,
                forall|p: int|
                    0 <= p < out@.len() ==> #[trigger] out@[p] == mix_y(xs, r as nat, (2 * (p / 64)) as nat)[p % 64],
            decreases 64 - k,
        {
            proof {
                lemma_div64(base + k, (i / 2) as int);
            }
            out.push(y[k]);
            k = k + 1;
        }
        i = i + 2;
    }
    let mut i: usize = 1;
    while i < 2 * r
        invariant
            r >= 1,
            128 * r <= usize::MAX,
            xs.len() == 128 * r,
            ys@.len() == 2 * r,
            forall|j: int| 0 <= j < 2 * r ==> (#[trigger] ys@[j])@ == mix_y(xs, r as nat, j as nat),
            forall|j: int| 0 <= j < 2 * r ==> (#[trigger] ys@[j])@.len() == 64,
            1 <= i <= 2 * r + 1,
            i % 2 == 1,
            out@.len() == 64 * r + 32 * (i - 1),
            forall|p: int|
                0 <= p < 64 * r ==> #[trigger] out@[p] == mix_y(xs, r as nat, (2 * (p / 64)) as nat)[p % 64],
            forall|p: int|
                64 * r <= p < out@.len() ==> #[trigger] out@[p] == mix_y(
                    xs,
                    r as nat,
                    (2 * ((p - 64 * r) / 64) + 1) as nat,
                )[(p - 64 * r) % 64],
        decreases 2 * r + 1 - i,
    {
        let y = &ys[i];
        let ghost base = out@.len() as int;
        let mut k: usize = 0;
        while k < 64
            invariant
                y@ == mix_y(xs, r as nat, i as nat),
                y@.len() == 64,
                base == 64 * r + 32 * (i - 1),
                i % 2 == 1,
                0 <= k <= 64,
                out@.len() == base + k,
                forall|p: int|
                    0 <= p < 64 * r ==> #[trigger] out@[p] == mix_y(xs, r as nat, (2 * (p / 64)) as nat)[p % 64],
                forall|p: int|
                    64 * r <= p < out@.len() ==> #[trigger] out@[p] == mix_y(
                        xs,
                        r as nat,
                        (2 * ((p - 64 * r) / 64) + 1) as nat,
                    )[(p - 64 * r) % 64],
            decreases 64 - k,
        {
            proof {
                lemma_div64(base + k - 64 * r, ((i - 1) / 2) as int);
            }
            out.push(y[k]);
            k = k + 1;
        }
        i = i + 2;
    }
    assert(out@ =~= blockmix(xs, r as nat));
    out
}

/// `a & b` never exceeds `b`.
proof fn lemma_and_le(a: usize, b: usize)
    ensures
        a & b <= b,
{
    assert(a & b <= b) by (bit_vector);
}

/// ROMix of one `128r`-byte block with cost `n`.
pub fn romix_block(b: &[u8], r: usize, n: usize) -> (out: Vec<u8>)
    requires
        r >= 1,
        n >= 1,
        b@.len() == 128 * r,
        128 * r <= usize::MAX,
    ensures
        out@ == romix(b@, r as nat, n as nat),
        out@.len() == 128 * r,
{
    let ghost bs = b@;
    let mut x = sub_bytes(b, 0, b.len());
    assert(x@ =~= bs);
    let mut v: Vec<Vec<u8>> = Vec::new();
    let mut k: usize = 0;
    while k < n
        invariant
            r >= 1,
            128 * r <= usize::MAX,
            bs.len() == 128 * r,
            0 <= k <= n,
            v@.len() == k,
            forall|q: int| 0 <= q < k ==> (#[trigger] v@[q])@ == blockmix_n(bs, r as nat, q as nat),
            forall|q: int| 0 <= q < k ==> (#[trigger] v@[q])@.len() == 128 * r,
            x@ == blockmix_n(bs, r as nat, k as nat),
            x@.len() == 128 * r,
        decreases n - k,
    {
        v.push(x.clone());
        x = blockmix_block(x.as_slice(), r);
        k = k + 1;
    }
    let mut t: usize = 0;
    while t < n
        invariant
            r >= 1,
            n >= 1,
            128 * r <= usize::MAX,
            bs.len() == 128 * r,
            v@.len() == n,
            forall|q: int| 0 <= q < n ==> (#[trigger] v@[q])@ == blockmix_n(bs, r as nat, q as nat),
            forall|q: int| 0 <= q < n ==> (#[trigger] v@[q])@.len() == 128 * r,
            0 <= t <= n,
            x@ == romix_steps(bs, r as nat, n as nat, t as nat),
            x@.len() == 128 * r,
        decreases n - t,
    {
        let w = read_word(x.as_slice(), (2 * r - 1) * 64);
        let j: usize = (w as usize) & (n - 1);
        proof {
            lemma_and_le(w as usize, (n - 1) as usize);
        }
        assert(j as nat == integerify(x@, r as nat, n as nat));
        let y = xor_block(x.as_slice(), v[j].as_slice());
        x = blockmix_block(y.as_slice(), r);
        t = t + 1;
    }
    x
}

/// Each `128r`-byte block of `b`, in order, replaced by its ROMix.
pub fn scrypt_rom(b: &[u8], r: usize, n: usize, p: usize) -> (out: Vec<u8>)
    requires
        r >= 1,
        n >= 1,
        b@.len() == p * 128 * r,
        p * 128 * r <= usize::MAX,
        256 * r <= usize::MAX,
        128 * r * n <= usize::MAX,
    ensures
        out@ == rom_blocks(b@, r as nat, n as nat, p as nat),
{
    let len: usize = 128 * r;
    let mut out: Vec<u8> = Vec::new();
    let mut i: usize = 0;
    while i < p
        invariant
            r >= 1,
            n >= 1,
            len == 128 * r,
            256 * r <= usize::MAX,
            b@.len() == p * 128 * r,
            p * 128 * r <= usize::MAX,
            0 <= i <= p,
            out@ == rom_blocks(b@, r as nat, n as nat, i as nat),
        decreases p - i,
    {
        proof {
            assert((i + 1) * len <= p * len) by (nonlinear_arith)
                requires
                    i < p,
                    len >= 0,
            ;
            assert(i * len + len == (i + 1) * len) by (nonlinear_arith);
            assert(p * 128 * r == p * len) by (nonlinear_arith)
                requires
                    len == 128 * r,
            ;
        }
        let blk = sub_bytes(b, i * len, len);
        let y = romix_block(blk.as_slice(), r, n);
        let ghost before = out@;
        let mut k: usize = 0;
        while k < len
            invariant
                y@.len() == len,
                0 <= k <= len,
                out@ == before + y@.subrange(0, k as int),
            decreases len - k,
        {
            out.push(y[k]);
            k = k + 1;
            assert(out@ =~= before + y@.subrange(0, k as int));
        }
        assert(y@.subrange(0, len as int) =~= y@);
        proof {
            assert(((i + 1) as nat - 1) * 128 * r == i * len) by (nonlinear_arith)
                requires
                    len == 128 * r,
            ;
            assert(((i + 1) as nat) * 128 * r == i * len + len) by (nonlinear_arith)
                requires
                    len == 128 * r,
            ;
        }
        i = i + 1;
    }
    out
}

} // verus!
