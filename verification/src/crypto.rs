//! Node-style cryptography over the WASI cryptography calls: hashes, HMAC, key
//! derivation (PBKDF2, HKDF, scrypt) and AES-GCM.
use vstd::prelude::*;
use crate::crypto_raw::CryptoErrno;
use crate::salsa::{rom_blocks, scrypt_rom};
use crate::node_fs::ErrorObject;
use crate::text::{str_eq, string_from_chars, chars_of};
use crate::bytes::{append_bytes, concat_all, concat_parts};

verus! {

broadcast use vstd::seq_lib::group_seq_properties;

/// The name of the HMAC that the host computes with the named algorithm, key and data.
pub uninterp spec fn hmac_value(alg: Seq<char>, key: Seq<u8>, data: Seq<u8>) -> Seq<u8>;

/// The name of the digest that the host computes with the named algorithm over the data.
pub uninterp spec fn hash_value(alg: Seq<char>, data: Seq<u8>) -> Seq<u8>;

/// The name of the ciphertext and tag that authenticated encryption with the named
/// algorithm, key, nonce and associated data gives for a message.
pub uninterp spec fn aead_seal(
    alg: Seq<char>,
    key: Seq<u8>,
    iv: Seq<u8>,
    aad: Seq<u8>,
    msg: Seq<u8>,
) -> (Seq<u8>, Seq<u8>);

/// The name of the plaintext that authenticated decryption with the named algorithm,
/// key, nonce, associated data and tag gives for a ciphertext.
pub uninterp spec fn aead_open(
    alg: Seq<char>,
    key: Seq<u8>,
    iv: Seq<u8>,
    aad: Seq<u8>,
    tag: Seq<u8>,
    msg: Seq<u8>,
) -> Seq<u8>;

/// The names under which the host library accepts an HMAC algorithm.
pub open spec fn host_hmac_alg(alg: Seq<char>) -> bool {
    alg == "sha256"@ || alg == "SHA256"@ || alg == "HMAC/SHA-256"@ || alg == "sha512"@ || alg
        == "SHA512"@ || alg == "HMAC/SHA-512"@
}

/// The digest length for each name under which the host library accepts a hash algorithm.
pub open spec fn host_hash_len(alg: Seq<char>) -> Option<nat> {
    if alg == "sha256"@ || alg == "SHA256"@ || alg == "SHA-256"@ {
        Some(32)
    } else if alg == "sha512"@ || alg == "SHA512"@ || alg == "SHA-512"@ {
        Some(64)
    } else if alg == "sha512-256"@ || alg == "SHA512-256"@ || alg == "SHA-512/256"@ {
        Some(32)
    } else {
        None
    }
}

/// The names under which the host library accepts an authenticated cipher.
pub open spec fn host_cipher_alg(alg: Seq<char>) -> bool {
    alg == "aes-128-gcm"@ || alg == "AES-128-GCM"@ || alg == "aes-256-gcm"@ || alg
        == "AES-256-GCM"@ || alg == "chacha20-poly1305"@ || alg == "CHACHA20-POLY1305"@
}

/// `crypto_wasi::utils::hmac` over one piece of data. Its source refuses other algorithm
/// names with `UNSUPPORTED_ALGORITHM` (6) before any host call; a result it gives is the
/// host's HMAC. The length of that HMAC, and which other errors the host reports, are
/// not stated: the host decides them.
#[verifier::external_body]
fn host_hmac(alg: &str, key: &[u8], data: &[u8]) -> (r: Result<Vec<u8>, u16>)
    ensures
        !host_hmac_alg(alg@) ==> r is Err && r->Err_0 == 6,
        r matches Ok(v) ==> v@ == hmac_value(alg@, key@, data@),
{
    match crypto_wasi::utils::hmac(alg, key, &[data]) {
        Ok(v) => Ok(v),
        Err(e) => Err(e.raw()),
    }
}

/// `crypto_wasi::utils::hash` over one piece of data. Its source refuses other algorithm
/// names with `UNSUPPORTED_ALGORITHM` (6); a result it gives is the host's digest, in a
/// buffer as long as the algorithm's digest. Which other errors the host reports is not
/// stated.
#[verifier::external_body]
fn host_hash(alg: &str, data: &[u8]) -> (r: Result<Vec<u8>, u16>)
    ensures
        host_hash_len(alg@) is None ==> r is Err && r->Err_0 == 6,
        r matches Ok(v) ==> v@ == hash_value(alg@, data@) && host_hash_len(alg@) == Some(
            v@.len(),
        ),
{
    match crypto_wasi::utils::hash(alg, &[data]) {
        Ok(v) => Ok(v),
        Err(e) => Err(e.raw()),
    }
}

/// `crypto_wasi::utils::encrypt`. Its source refuses other cipher names with
/// `UNSUPPORTED_ALGORITHM` (6); a result it gives is the host's ciphertext, as long as the
/// message, and tag. Which other errors the host reports (a key or nonce of the wrong
/// size, for one) is not stated.
#[verifier::external_body]
fn host_encrypt(alg: &str, key: &[u8], iv: &[u8], aad: &[u8], msg: &[u8]) -> (r: Result<
    (Vec<u8>, Vec<u8>),
    u16,
>)
    ensures
        !host_cipher_alg(alg@) ==> r is Err && r->Err_0 == 6,
        r matches Ok((c, t)) ==> (c@, t@) == aead_seal(alg@, key@, iv@, aad@, msg@) && c@.len()
            == msg@.len(),
{
    match crypto_wasi::utils::encrypt(alg, key, iv, aad, msg) {
        Ok(v) => Ok(v),
        Err(e) => Err(e.raw()),
    }
}

/// `crypto_wasi::utils::decrypt`. Its source refuses other cipher names with
/// `UNSUPPORTED_ALGORITHM` (6); a result it gives is the host's plaintext, as long as the
/// ciphertext. When the host rejects the tag, and which other errors it reports, is not
/// stated.
#[verifier::external_body]
fn host_decrypt(alg: &str, key: &[u8], iv: &[u8], aad: &[u8], tag: &[u8], msg: &[u8]) -> (r:
    Result<Vec<u8>, u16>)
    ensures
        !host_cipher_alg(alg@) ==> r is Err && r->Err_0 == 6,
        r matches Ok(p) ==> p@ == aead_open(alg@, key@, iv@, aad@, tag@, msg@) && p@.len()
            == msg@.len(),
{
    match crypto_wasi::utils::decrypt(alg, key, iv, aad, tag, msg) {
        Ok(v) => Ok(v),
        Err(e) => Err(e.raw()),
    }
}

/// `crypto_wasi::Hmac::create`: its source refuses other algorithm names with
/// `UNSUPPORTED_ALGORITHM` (6), then imports the key into the host and opens an HMAC state,
/// which the host may refuse. The state opened is closed again when it is dropped here.
/// Which errors the host reports is not stated.
#[verifier::external_body]
fn host_hmac_open(alg: &str, key: &[u8]) -> (r: Result<(), u16>)
    ensures
        !host_hmac_alg(alg@) ==> r is Err && r->Err_0 == 6,
{
    match crypto_wasi::Hmac::create(alg, key) {
        Ok(_) => Ok(()),
        Err(e) => Err(e.raw()),
    }
}

/// `crypto_wasi::Hash::create`: its source refuses other algorithm names with
/// `UNSUPPORTED_ALGORITHM` (6), then opens a hash state in the host, which the host may
/// refuse. The state opened is closed again when it is dropped here. Which errors the host
/// reports is not stated.
#[verifier::external_body]
fn host_hash_open(alg: &str) -> (r: Result<(), u16>)
    ensures
        host_hash_len(alg@) is None ==> r is Err && r->Err_0 == 6,
{
    match crypto_wasi::Hash::create(alg) {
        Ok(_) => Ok(()),
        Err(e) => Err(e.raw()),
    }
}

/// `crypto_wasi::Cipheriv::create`: its source refuses other cipher names with
/// `UNSUPPORTED_ALGORITHM` (6), then imports the key into the host and opens an encryption
/// state with the nonce, which the host may refuse (a key of the wrong size, for one). The
/// state opened is closed again when it is dropped here. Which errors the host reports is
/// not stated.
#[verifier::external_body]
fn host_cipher_open(alg: &str, key: &[u8], iv: &[u8]) -> (r: Result<(), u16>)
    ensures
        !host_cipher_alg(alg@) ==> r is Err && r->Err_0 == 6,
{
    match crypto_wasi::Cipheriv::create(alg, key, iv) {
        Ok(_) => Ok(()),
        Err(e) => Err(e.raw()),
    }
}

/// `crypto_wasi::Decipheriv::create`: its source refuses other cipher names with
/// `UNSUPPORTED_ALGORITHM` (6), then imports the key into the host and opens a decryption
/// state with the nonce, which the host may refuse. The state opened is closed again when
/// it is dropped here. Which errors the host reports is not stated.
#[verifier::external_body]
fn host_decipher_open(alg: &str, key: &[u8], iv: &[u8]) -> (r: Result<(), u16>)
    ensures
        !host_cipher_alg(alg@) ==> r is Err && r->Err_0 == 6,
{
    match crypto_wasi::Decipheriv::create(alg, key, iv) {
        Ok(_) => Ok(()),
        Err(e) => Err(e.raw()),
    }
}

/// The error value for a code reported by the host.
fn host_error(code: u16) -> (e: CryptoErrno)
    ensures
        code <= 30 ==> e.code() == code,
{
    CryptoErrno::from_host(code)
}

/// The error for an algorithm name that is not supported.
fn unsupported() -> (e: CryptoErrno)
    ensures
        e.code() == 6,
{
    CryptoErrno::from_host(6)
}

/// The error for an operation that cannot be done in the current state.
fn invalid_operation() -> (e: CryptoErrno)
    ensures
        e.code() == 22,
{
    CryptoErrno::from_host(22)
}

/// The error for a digest that is shorter than its algorithm promises.
fn algorithm_failure() -> (e: CryptoErrno)
    ensures
        e.code() == 12,
{
    CryptoErrno::from_host(12)
}

/// Runs the host HMAC once, mapping its error.
fn hmac_once(alg: &str, key: &[u8], data: &[u8]) -> (r: Result<Vec<u8>, CryptoErrno>)
    ensures
        !host_hmac_alg(alg@) ==> (r matches Err(e) && e.code() == 6),
        r matches Ok(v) ==> v@ == hmac_value(alg@, key@, data@),
{
    match host_hmac(alg, key, data) {
        Ok(v) => Ok(v),
        Err(c) => Err(host_error(c)),
    }
}

/// Whether the name is one under which HMAC is offered.
fn is_hmac_alg(alg: &str) -> (r: bool)
    ensures
        r == host_hmac_alg(alg@),
{
    str_eq(alg, "sha256") || str_eq(alg, "SHA256") || str_eq(alg, "HMAC/SHA-256") || str_eq(
        alg,
        "sha512",
    ) || str_eq(alg, "SHA512") || str_eq(alg, "HMAC/SHA-512")
}

/// The HMAC of the concatenated pieces of data, as
/// `let h = createHmac(alg, key); infos.forEach(i => h.update(i)); h.digest()` gives it.
pub fn hmac(alg: &str, key: &[u8], infos: &[Vec<u8>]) -> (r: Result<Vec<u8>, CryptoErrno>)
    ensures
        !host_hmac_alg(alg@) ==> (r matches Err(e) && e.code() == 6),
        r matches Ok(v) ==> v@ == hmac_value(alg@, key@, concat_all(infos@)),
{
    if !is_hmac_alg(alg) {
        return Err(unsupported());
    }
    let data = concat_parts(infos);
    hmac_once(alg, key, data.as_slice())
}

/// The digest length for each name under which `Hash` offers an algorithm.
pub open spec fn hash_alg_len(alg: Seq<char>) -> Option<nat> {
    if alg == "sha256"@ || alg == "SHA256"@ || alg == "SHA-256"@ {
        Some(32)
    } else if alg == "sha512"@ || alg == "SHA512"@ || alg == "SHA-512"@ {
        Some(64)
    } else {
        None
    }
}

fn hash_len_of(alg: &str) -> (r: Option<usize>)
    ensures
        match hash_alg_len(alg@) {
            Some(n) => r == Some(n as usize),
            None => r is None,
        },
{
    if str_eq(alg, "sha256") || str_eq(alg, "SHA256") || str_eq(alg, "SHA-256") {
        Some(32)
    } else if str_eq(alg, "sha512") || str_eq(alg, "SHA512") || str_eq(alg, "SHA-512") {
        Some(64)
    } else {
        None
    }
}

/// The digest of the concatenated pieces of data, as
/// `let h = createHash(alg); infos.forEach(i => h.update(i)); h.digest()` gives it.
pub fn hash(alg: &str, infos: &[Vec<u8>]) -> (r: Result<Vec<u8>, CryptoErrno>)
    ensures
        hash_alg_len(alg@) is None ==> (r matches Err(e) && e.code() == 6),
        r matches Ok(v) ==> v@ == hash_value(alg@, concat_all(infos@)) && hash_alg_len(alg@)
            == Some(v@.len()),
{
    if hash_len_of(alg).is_none() {
        return Err(unsupported());
    }
    let data = concat_parts(infos);
    match host_hash(alg, data.as_slice()) {
        Ok(v) => Ok(v),
        Err(c) => Err(host_error(c)),
    }
}

/// A running HMAC: the algorithm, the key and the data given so far.
pub struct Hmac {
    alg: String,
    key: Vec<u8>,
    data: Vec<u8>,
}

impl View for Hmac {
    type V = (Seq<char>, Seq<u8>, Seq<u8>);

    closed spec fn view(&self) -> (Seq<char>, Seq<u8>, Seq<u8>) {
        (self.alg@, self.key@, self.data@)
    }
}

impl Hmac {
    /// Starts an HMAC with the algorithm and key: an algorithm name that is not offered is
    /// refused, and the host is handed the key, which it may refuse.
    pub fn create(alg: &str, key: &[u8]) -> (r: Result<Self, CryptoErrno>)
        ensures
            !host_hmac_alg(alg@) ==> (r matches Err(e) && e.code() == 6),
            r matches Ok(h) ==> host_hmac_alg(alg@) && h@ == (alg@, key@, Seq::<u8>::empty()),
    {
        if !is_hmac_alg(alg) {
            return Err(unsupported());
        }
        if let Err(code) = host_hmac_open(alg, key) {
            return Err(host_error(code));
        }
        let mut k: Vec<u8> = Vec::new();
        append_bytes(&mut k, key);
        Ok(Hmac { alg: string_from_chars(chars_of(alg)), key: k, data: Vec::new() })
    }

    /// Adds data.
    pub fn update(&mut self, data: &[u8]) -> (r: Result<(), CryptoErrno>)
        ensures
            r is Ok,
            final(self)@ == (old(self)@.0, old(self)@.1, old(self)@.2 + data@),
    {
        append_bytes(&mut self.data, data);
        Ok(())
    }

    /// The HMAC of all the data given so far.
    pub fn digest(&mut self) -> (r: Result<Vec<u8>, CryptoErrno>)
        ensures
            final(self)@ == old(self)@,
            r matches Ok(v) ==> v@ == hmac_value(old(self)@.0, old(self)@.1, old(self)@.2),
    {
        hmac_once(self.alg.as_str(), self.key.as_slice(), self.data.as_slice())
    }
}

/// A running digest: the algorithm, its digest length and the data given so far.
pub struct Hash {
    alg: String,
    hash_len: usize,
    data: Vec<u8>,
}

impl View for Hash {
    type V = (Seq<char>, nat, Seq<u8>);

    closed spec fn view(&self) -> (Seq<char>, nat, Seq<u8>) {
        (self.alg@, self.hash_len as nat, self.data@)
    }
}

impl Hash {
    /// Starts a digest with the algorithm: a name that is not offered is refused, and the
    /// host is asked to open the digest, which it may refuse.
    pub fn create(alg: &str) -> (r: Result<Self, CryptoErrno>)
        ensures
            hash_alg_len(alg@) is None ==> (r matches Err(e) && e.code() == 6),
            r matches Ok(h) ==> hash_alg_len(alg@) is Some && h@ == (
                alg@,
                hash_alg_len(alg@)->Some_0,
                Seq::<u8>::empty(),
            ),
    {
        match hash_len_of(alg) {
            None => Err(unsupported()),
            Some(n) => {
                if let Err(code) = host_hash_open(alg) {
                    return Err(host_error(code));
                }
                Ok(Hash { alg: string_from_chars(chars_of(alg)), hash_len: n, data: Vec::new() })
            },
        }
    }

    /// Adds data.
    pub fn update(&mut self, data: &[u8]) -> (r: Result<(), CryptoErrno>)
        ensures
            r is Ok,
            final(self)@ == (old(self)@.0, old(self)@.1, old(self)@.2 + data@),
    {
        append_bytes(&mut self.data, data);
        Ok(())
    }

    /// The digest of all the data given so far, as long as the algorithm's digest.
    pub fn digest(&mut self) -> (r: Result<Vec<u8>, CryptoErrno>)
        ensures
            final(self)@ == old(self)@,
            r matches Ok(v) ==> v@ == hash_value(old(self)@.0, old(self)@.2) && v@.len() == old(
                self,
            )@.1,
    {
        match host_hash(self.alg.as_str(), self.data.as_slice()) {
            Ok(v) => {
                if v.len() != self.hash_len {
                    return Err(algorithm_failure());
                }
                Ok(v)
            },
            Err(c) => Err(host_error(c)),
        }
    }

    /// An independent copy of the running digest.
    pub fn copy(&self) -> (r: Result<Self, CryptoErrno>)
        ensures
            r matches Ok(h) && h@ == self@,
    {
        let mut data: Vec<u8> = Vec::new();
        append_bytes(&mut data, self.data.as_slice());
        Ok(Hash { alg: self.alg.clone(), hash_len: self.hash_len, data })
    }
}

/// The digest length of the HMAC under each name that `pbkdf2` accepts.
pub open spec fn pbkdf2_hash_len(alg: Seq<char>) -> Option<nat> {
    if alg == "sha256"@ || alg == "SHA256"@ || alg == "HMAC/SHA-256"@ {
        Some(32)
    } else if alg == "sha512"@ || alg == "SHA512"@ || alg == "HMAC/SHA-512"@ {
        Some(64)
    } else {
        None
    }
}

fn pbkdf2_len_of(alg: &str) -> (r: Option<usize>)
    ensures
        match pbkdf2_hash_len(alg@) {
            Some(n) => r == Some(n as usize),
            None => r is None,
        },
{
    if str_eq(alg, "sha256") || str_eq(alg, "SHA256") || str_eq(alg, "HMAC/SHA-256") {
        Some(32)
    } else if str_eq(alg, "sha512") || str_eq(alg, "SHA512") || str_eq(alg, "HMAC/SHA-512") {
        Some(64)
    } else {
        None
    }
}

/// The four big-endian bytes of a block number, modulo 2^32.
pub open spec fn be32(i: nat) -> Seq<u8> {
    seq![
        ((i / 0x100_0000) % 256) as u8,
        ((i / 0x1_0000) % 256) as u8,
        ((i / 0x100) % 256) as u8,
        (i % 256) as u8,
    ]
}

/// The byte-wise exclusive or of two byte strings, as long as the first.
pub open spec fn xor_bytes(a: Seq<u8>, b: Seq<u8>) -> Seq<u8> {
    Seq::new(a.len(), |k: int| a[k] ^ b[k])
}

/// `U_j` of PBKDF2 block `i`: the HMAC of the salt and block number, then `j - 1` more
/// HMACs of the previous value.
pub open spec fn pbkdf2_u(alg: Seq<char>, pw: Seq<u8>, salt: Seq<u8>, i: nat, j: nat) -> Seq<u8>
    decreases j,
{
    if j <= 1 {
        hmac_value(alg, pw, salt + be32(i))
    } else {
        hmac_value(alg, pw, pbkdf2_u(alg, pw, salt, i, (j - 1) as nat))
    }
}

/// `T_i` of PBKDF2 after `c` iterations: the exclusive or of `U_1` to `U_c`.
pub open spec fn pbkdf2_t(alg: Seq<char>, pw: Seq<u8>, salt: Seq<u8>, i: nat, c: nat) -> Seq<u8>
    decreases c,
{
    if c <= 1 {
        pbkdf2_u(alg, pw, salt, i, 1)
    } else {
        xor_bytes(pbkdf2_t(alg, pw, salt, i, (c - 1) as nat), pbkdf2_u(alg, pw, salt, i, c))
    }
}

/// The PBKDF2 key of the given length: byte `p` is byte `p % h` of block `p / h + 1`,
/// `h` being the digest length.
pub open spec fn pbkdf2_key(alg: Seq<char>, pw: Seq<u8>, salt: Seq<u8>, c: nat, key_len: nat) -> Seq<
    u8,
> {
    let h = pbkdf2_hash_len(alg)->Some_0 as int;
    Seq::new(key_len, |p: int| pbkdf2_t(alg, pw, salt, (p / h + 1) as nat, c)[p % h])
}

/// Replaces `acc` by its exclusive or with `other`.
pub fn xor_in_place(acc: &mut Vec<u8>, other: &[u8])
    requires
        other@.len() >= old(acc)@.len(),
    ensures
        final(acc)@ == xor_bytes(old(acc)@, other@),
{
    let n = acc.len();
    let mut k: usize = 0;
    while k < n
        invariant
            n == old(acc)@.len(),
            other@.len() >= n,
            acc@.len() == n,
            0 <= k <= n,
            forall|q: int| 0 <= q < k ==> acc@[q] == old(acc)@[q] ^ other@[q],
            forall|q: int| k <= q < n ==> acc@[q] == old(acc)@[q],
        decreases n - k,
    {
        let x = acc[k] ^ other[k];
        acc.set(k, x);
        k = k + 1;
    }
    assert(acc@ =~= xor_bytes(old(acc)@, other@));
}

/// The big-endian bytes of a block number, modulo 2^32.
fn block_number(i: usize) -> (r: Vec<u8>)
    ensures
        r@ == be32(i as nat),
{
    let mut r: Vec<u8> = Vec::new();
    r.push(((i / 0x100_0000) % 256) as u8);
    r.push(((i / 0x1_0000) % 256) as u8);
    r.push(((i / 0x100) % 256) as u8);
    r.push((i % 256) as u8);
    assert(r@ =~= be32(i as nat));
    r
}

/// Block `i` of PBKDF2 after `iters` iterations. A host HMAC that is not `hash_len` bytes
/// long is answered with `ALGORITHM_FAILURE`.
fn pbkdf2_block(
    alg: &str,
    password: &[u8],
    salt: &[u8],
    i: usize,
    iters: usize,
    hash_len: usize,
) -> (r: Result<Vec<u8>, CryptoErrno>)
    requires
        iters >= 1,
    ensures
        r matches Ok(t) ==> t@ == pbkdf2_t(alg@, password@, salt@, i as nat, iters as nat)
            && t@.len() == hash_len,
{
    let mut salt_2: Vec<u8> = Vec::new();
    append_bytes(&mut salt_2, salt);
    let num = block_number(i);
    append_bytes(&mut salt_2, num.as_slice());
    let mut res_t = match hmac_once(alg, password, salt_2.as_slice()) {
        Ok(v) => v,
        Err(e) => return Err(e),
    };
    if res_t.len() != hash_len {
        return Err(algorithm_failure());
    }
    let mut res_u = res_t.clone();
    let mut j: usize = 1;
    while j < iters
        invariant
            1 <= j <= iters,
            res_t@ == pbkdf2_t(alg@, password@, salt@, i as nat, j as nat),
            res_u@ == pbkdf2_u(alg@, password@, salt@, i as nat, j as nat),
            res_t@.len() == hash_len,
            res_u@.len() == hash_len,
        decreases iters - j,
    {
        let next = match hmac_once(alg, password, res_u.as_slice()) {
            Ok(v) => v,
            Err(e) => return Err(e),
        };
        if next.len() != hash_len {
            return Err(algorithm_failure());
        }
        res_u = next;
        xor_in_place(&mut res_t, res_u.as_slice());
        j = j + 1;
    }
    Ok(res_t)
}

proof fn lemma_block_pos(p: int, idx: int, h: int)
    requires
        h > 0,
        idx >= 0,
        idx * h <= p < idx * h + h,
    ensures
        p / h == idx,
        p % h == p - idx * h,
{
    vstd::arithmetic::div_mod::lemma_fundamental_div_mod_converse(p, h, idx, p - idx * h);
}

/// PBKDF2 with the named HMAC, as `crypto.pbkdf2Sync` computes it: `key_len` bytes, block
/// after block, each block the exclusive or of `iters` chained HMACs. A key of length zero
/// asks the host nothing and is empty.
pub fn pbkdf2(alg: &str, password: &[u8], salt: &[u8], iters: usize, key_len: usize) -> (r:
    Result<Vec<u8>, CryptoErrno>)
    requires
        iters >= 1 || key_len == 0,
    ensures
        pbkdf2_hash_len(alg@) is None ==> (r matches Err(e) && e.code() == 6),
        pbkdf2_hash_len(alg@) is Some && key_len == 0 ==> (r matches Ok(v) && v@.len() == 0),
        r matches Ok(v) ==> v@ == pbkdf2_key(alg@, password@, salt@, iters as nat, key_len as nat),
{
    let hash_len: usize = match pbkdf2_len_of(alg) {
        None => return Err(unsupported()),
        Some(n) => n,
    };
    let ghost h = hash_len as int;
    let ghost key = pbkdf2_key(alg@, password@, salt@, iters as nat, key_len as nat);
    let mut out: Vec<u8> = Vec::new();
    let mut idx: usize = 0;
    while out.len() < key_len
        invariant
            h == hash_len as int,
            h == 32 || h == 64,
            pbkdf2_hash_len(alg@) == Some(h as nat),
            iters >= 1 || key_len == 0,
            key == pbkdf2_key(alg@, password@, salt@, iters as nat, key_len as nat),
            out@.len() <= key_len,
            out@.len() < key_len ==> out@.len() == idx * h,
            idx <= out@.len(),
            forall|p: int| 0 <= p < out@.len() ==> #[trigger] out@[p] == key[p],
        decreases key_len - out@.len(),
    {
        let t = match pbkdf2_block(alg, password, salt, idx + 1, iters, hash_len) {
            Ok(t) => t,
            Err(e) => return Err(e),
        };
        let rest = key_len - out.len();
        let take: usize = if rest < hash_len {
            rest
        } else {
            hash_len
        };
        let ghost base = out@.len() as int;
        let mut k: usize = 0;
        while k < take
            invariant
                h == hash_len as int,
                h > 0,
                base == idx * h,
                take <= h,
                base + take <= key_len,
                t@ == pbkdf2_t(alg@, password@, salt@, (idx + 1) as nat, iters as nat),
                t@.len() == h,
                pbkdf2_hash_len(alg@) == Some(h as nat),
                key == pbkdf2_key(alg@, password@, salt@, iters as nat, key_len as nat),
                0 <= k <= take,
                out@.len() == base + k,
                forall|p: int| 0 <= p < out@.len() ==> #[trigger] out@[p] == key[p],
            decreases take - k,
        {
            proof {
                lemma_block_pos(base + k, idx as int, h);
            }
            out.push(t[k]);
            k = k + 1;
        }
        proof {
            if out@.len() < key_len {
                assert(take == hash_len);
                assert((idx + 1) * h == idx * h + h) by (nonlinear_arith);
            }
        }
        idx = idx + 1;
    }
    assert(out@ =~= key);
    Ok(out)
}

/// The digest length under each name that `hkdf_hmac` accepts.
pub open spec fn hkdf_hash_len(alg: Seq<char>) -> Option<nat> {
    if alg == "sha256"@ || alg == "SHA256"@ {
        Some(32)
    } else if alg == "sha512"@ || alg == "SHA512"@ {
        Some(64)
    } else {
        None
    }
}

/// The digest length of the hash that `hkdf_hmac` uses under a name; none for a name it
/// refuses.
pub fn hkdf_digest_len(alg: &str) -> (r: Option<usize>)
    ensures
        match hkdf_hash_len(alg@) {
            Some(n) => r == Some(n as usize),
            None => r is None,
        },
{
    if str_eq(alg, "sha256") || str_eq(alg, "SHA256") {
        Some(32)
    } else if str_eq(alg, "sha512") || str_eq(alg, "SHA512") {
        Some(64)
    } else {
        None
    }
}

/// Block `n` of the HKDF expansion: `T(0)` is empty and `T(n)` is the HMAC, keyed with the
/// pseudorandom key, of `T(n - 1)`, the info and the byte `n`.
pub open spec fn hkdf_t(alg: Seq<char>, prk: Seq<u8>, info: Seq<u8>, n: nat) -> Seq<u8>
    decreases n,
{
    if n == 0 {
        seq![]
    } else {
        hmac_value(alg, prk, hkdf_t(alg, prk, info, (n - 1) as nat) + info + seq![n as u8])
    }
}

/// The HKDF key of the given length: the pseudorandom key is the HMAC of the input key
/// keyed with the salt, and byte `p` of the result is byte `p % h` of block `p / h + 1`.
pub open spec fn hkdf_key(
    alg: Seq<char>,
    key: Seq<u8>,
    salt: Seq<u8>,
    info: Seq<u8>,
    key_len: nat,
) -> Seq<u8> {
    let h = hkdf_hash_len(alg)->Some_0 as int;
    let prk = hmac_value(alg, salt, key);
    Seq::new(key_len, |p: int| hkdf_t(alg, prk, info, (p / h + 1) as nat)[p % h])
}

/// HKDF with the named hash, extracting and expanding with HMAC, as `crypto.hkdfSync`
/// computes it. A host HMAC in the expansion that is not as long as the digest is answered
/// with `ALGORITHM_FAILURE`.
pub fn hkdf_hmac(alg: &str, key: &[u8], salt: &[u8], info: &[u8], key_len: usize) -> (r: Result<
    Vec<u8>,
    CryptoErrno,
>)
    requires
        hkdf_hash_len(alg@) matches Some(h) ==> key_len <= 255 * h,
    ensures
        hkdf_hash_len(alg@) is None ==> (r matches Err(e) && e.code() == 6),
        r matches Ok(v) ==> v@ == hkdf_key(alg@, key@, salt@, info@, key_len as nat),
{
    let hash_len: usize = match hkdf_digest_len(alg) {
        None => return Err(unsupported()),
        Some(n) => n,
    };
    let expand_key = match hmac_once(alg, salt, key) {
        Ok(v) => v,
        Err(e) => return Err(e),
    };
    let ghost h = hash_len as int;
    let ghost prk = hmac_value(alg@, salt@, key@);
    let ghost okm = hkdf_key(alg@, key@, salt@, info@, key_len as nat);
    let mut out: Vec<u8> = Vec::new();
    let mut last: Vec<u8> = Vec::new();
    let mut idx: usize = 0;
    while out.len() < key_len
        invariant
            h == hash_len as int,
            h == 32 || h == 64,
            hkdf_hash_len(alg@) == Some(h as nat),
            key_len <= 255 * h,
            expand_key@ == prk,
            prk == hmac_value(alg@, salt@, key@),
            okm == hkdf_key(alg@, key@, salt@, info@, key_len as nat),
            last@ == hkdf_t(alg@, prk, info@, idx as nat),
            out@.len() <= key_len,
            out@.len() < key_len ==> out@.len() == idx * h,
            idx <= out@.len(),
            forall|p: int| 0 <= p < out@.len() ==> #[trigger] out@[p] == okm[p],
        decreases key_len - out@.len(),
    {
        proof {
            assert(idx < 255) by (nonlinear_arith)
                requires
                    out@.len() == idx * h,
                    out@.len() < key_len,
                    key_len <= 255 * h,
                    h > 0,
            ;
        }
        let mut input: Vec<u8> = Vec::new();
        append_bytes(&mut input, last.as_slice());
        append_bytes(&mut input, info);
        let counter: u8 = (idx + 1) as u8;
        input.push(counter);
        assert(input@ =~= last@ + info@ + seq![(idx + 1) as nat as u8]);
        let t = match hmac_once(alg, expand_key.as_slice(), input.as_slice()) {
            Ok(v) => v,
            Err(e) => return Err(e),
        };
        if t.len() != hash_len {
            return Err(algorithm_failure());
        }
        assert(t@ == hkdf_t(alg@, prk, info@, (idx + 1) as nat));
        let rest = key_len - out.len();
        let take: usize = if rest < hash_len {
            rest
        } else {
            hash_len
        };
        let ghost base = out@.len() as int;
        let mut k: usize = 0;
        while k < take
            invariant
                h == hash_len as int,
                h > 0,
                base == idx * h,
                take <= h,
                base + take <= key_len,
                t@ == hkdf_t(alg@, prk, info@, (idx + 1) as nat),
                t@.len() == h,
                hkdf_hash_len(alg@) == Some(h as nat),
                prk == hmac_value(alg@, salt@, key@),
                okm == hkdf_key(alg@, key@, salt@, info@, key_len as nat),
                0 <= k <= take,
                out@.len() == base + k,
                forall|p: int| 0 <= p < out@.len() ==> #[trigger] out@[p] == okm[p],
            decreases take - k,
        {
            proof {
                lemma_block_pos(base + k, idx as int, h);
            }
            out.push(t[k]);
            k = k + 1;
        }
        proof {
            if out@.len() < key_len {
                assert((idx + 1) * h == idx * h + h) by (nonlinear_arith);
            }
        }
        last = t;
        idx = idx + 1;
    }
    assert(out@ =~= okm);
    Ok(out)
}

/// The names under which `Cipher` and `Decipher` accept an AES-GCM cipher.
pub open spec fn gcm_alg(alg: Seq<char>) -> bool {
    alg == "aes-128-gcm"@ || alg == "AES-128-GCM"@ || alg == "aes-256-gcm"@ || alg
        == "AES-256-GCM"@
}

fn is_gcm_alg(alg: &str) -> (r: bool)
    ensures
        r == gcm_alg(alg@),
{
    str_eq(alg, "aes-128-gcm") || str_eq(alg, "AES-128-GCM") || str_eq(alg, "aes-256-gcm")
        || str_eq(alg, "AES-256-GCM")
}

fn copy_bytes(data: &[u8]) -> (r: Vec<u8>)
    ensures
        r@ == data@,
{
    let mut v: Vec<u8> = Vec::new();
    append_bytes(&mut v, data);
    v
}

/// What a cipher holds: algorithm, key, nonce, associated data, message and tag.
pub struct CipherView {
    pub alg: Seq<char>,
    pub key: Seq<u8>,
    pub iv: Seq<u8>,
    pub aad: Seq<u8>,
    pub message: Seq<u8>,
    pub tag: Option<Seq<u8>>,
}

/// The tag as a byte sequence.
pub open spec fn opt_bytes(t: Option<Vec<u8>>) -> Option<Seq<u8>> {
    match t {
        Some(v) => Some(v@),
        None => None,
    }
}

/// An AES-GCM encryption, as `crypto.createCipheriv` gives it: the message is gathered by
/// `update` and encrypted at once by `fin`, which keeps the tag. The key and nonce reach
/// the host at encryption time, so an error about them comes from `fin` or `encrypt`.
pub struct Cipher {
    alg: String,
    key: Vec<u8>,
    iv: Vec<u8>,
    aad: Vec<u8>,
    message: Vec<u8>,
    tag: Option<Vec<u8>>,
}

impl View for Cipher {
    type V = CipherView;

    closed spec fn view(&self) -> CipherView {
        CipherView {
            alg: self.alg@,
            key: self.key@,
            iv: self.iv@,
            aad: self.aad@,
            message: self.message@,
            tag: opt_bytes(self.tag),
        }
    }
}

impl Cipher {
    /// Starts an encryption: a cipher name that is not offered is refused, and the host is
    /// handed the key and nonce, which it may refuse.
    pub fn create(alg: &str, key: &[u8], iv: &[u8]) -> (r: Result<Self, CryptoErrno>)
        ensures
            !gcm_alg(alg@) ==> (r matches Err(e) && e.code() == 6),
            r matches Ok(c) ==> gcm_alg(alg@) && c@ == (CipherView {
                alg: alg@,
                key: key@,
                iv: iv@,
                aad: seq![],
                message: seq![],
                tag: None,
            }),
    {
        if !is_gcm_alg(alg) {
            return Err(unsupported());
        }
        if let Err(code) = host_cipher_open(alg, key, iv) {
            return Err(host_error(code));
        }
        Ok(
            Cipher {
                alg: string_from_chars(chars_of(alg)),
                key: copy_bytes(key),
                iv: copy_bytes(iv),
                aad: Vec::new(),
                message: Vec::new(),
                tag: None,
            },
        )
    }

    /// Adds associated data, authenticated but not encrypted.
    pub fn set_aad(&mut self, data: &[u8]) -> (r: Result<(), CryptoErrno>)
        ensures
            r is Ok,
            final(self)@ == (CipherView { aad: old(self)@.aad + data@, ..old(self)@ }),
    {
        append_bytes(&mut self.aad, data);
        Ok(())
    }

    /// Adds message bytes.
    pub fn update(&mut self, data: &[u8]) -> (r: Result<(), CryptoErrno>)
        ensures
            r is Ok,
            final(self)@ == (CipherView { message: old(self)@.message + data@, ..old(self)@ }),
    {
        append_bytes(&mut self.message, data);
        Ok(())
    }

    fn seal(&mut self, msg: &[u8]) -> (r: Result<Vec<u8>, CryptoErrno>)
        ensures
            r matches Ok(c) ==> final(self)@ == (CipherView {
                tag: Some(aead_seal(old(self)@.alg, old(self)@.key, old(self)@.iv, old(self)@.aad, msg@).1),
                ..old(self)@
            }) && c@ == aead_seal(old(self)@.alg, old(self)@.key, old(self)@.iv, old(self)@.aad, msg@).0
                && c@.len() == msg@.len(),
            r is Err ==> final(self)@ == old(self)@,
    {
        match host_encrypt(
            self.alg.as_str(),
            self.key.as_slice(),
            self.iv.as_slice(),
            self.aad.as_slice(),
            msg,
        ) {
            Ok((c, t)) => {
                self.tag = Some(t);
                Ok(c)
            },
            Err(code) => Err(host_error(code)),
        }
    }

    /// Encrypts the gathered message and keeps the tag.
    pub fn fin(&mut self) -> (r: Result<Vec<u8>, CryptoErrno>)
        ensures
            ({
                let o = old(self)@;
                let sealed = aead_seal(o.alg, o.key, o.iv, o.aad, o.message);
                &&& r matches Ok(c) ==> c@ == sealed.0 && c@.len() == o.message.len() && final(self)@ == (CipherView {
                    tag: Some(sealed.1),
                    ..o
                })
                &&& r is Err ==> final(self)@ == o
            }),
    {
        let msg = self.message.clone();
        self.seal(msg.as_slice())
    }

    /// Encrypts the given data in place of the gathered message and keeps the tag.
    pub fn encrypt(&mut self, data: &[u8]) -> (r: Result<Vec<u8>, CryptoErrno>)
        ensures
            ({
                let o = old(self)@;
                let sealed = aead_seal(o.alg, o.key, o.iv, o.aad, data@);
                &&& r matches Ok(c) ==> c@ == sealed.0 && c@.len() == data@.len() && final(self)@ == (CipherView {
                    tag: Some(sealed.1),
                    ..o
                })
                &&& r is Err ==> final(self)@ == o
            }),
    {
        self.seal(data)
    }

    /// The tag of the last encryption; none before one is done.
    pub fn get_auth_tag(&self) -> (r: Result<&Vec<u8>, CryptoErrno>)
        ensures
            match self@.tag {
                Some(t) => r matches Ok(v) && v@ == t,
                None => r matches Err(e) && e.code() == 22,
            },
    {
        match &self.tag {
            Some(t) => Ok(t),
            None => Err(invalid_operation()),
        }
    }

    /// Takes the tag of the last encryption out; none before one is done.
    pub fn take_auth_tag(&mut self) -> (r: Result<Vec<u8>, CryptoErrno>)
        ensures
            match old(self)@.tag {
                Some(t) => r matches Ok(v) && v@ == t,
                None => r matches Err(e) && e.code() == 22,
            },
            final(self)@ == (CipherView { tag: None, ..old(self)@ }),
    {
        match self.tag.take() {
            Some(t) => Ok(t),
            None => Err(invalid_operation()),
        }
    }
}

/// Encrypts a message with associated data at once, giving ciphertext and tag.
pub fn encrypt(alg: &str, key: &[u8], iv: &[u8], aad: &[u8], msg: &[u8]) -> (r: Result<
    (Vec<u8>, Vec<u8>),
    CryptoErrno,
>)
    ensures
        !gcm_alg(alg@) ==> (r matches Err(e) && e.code() == 6),
        r matches Ok((c, t)) ==> (c@, t@) == aead_seal(alg@, key@, iv@, aad@, msg@) && c@.len()
            == msg@.len(),
{
    let mut c = match Cipher::create(alg, key, iv) {
        Ok(c) => c,
        Err(e) => return Err(e),
    };
    let _ = c.set_aad(aad);
    assert(c@.aad =~= aad@);
    let out = match c.encrypt(msg) {
        Ok(v) => v,
        Err(e) => return Err(e),
    };
    match c.take_auth_tag() {
        Ok(t) => Ok((out, t)),
        Err(e) => Err(e),
    }
}

/// An AES-GCM decryption, as `crypto.createDecipheriv` gives it: the message is gathered
/// by `update` and decrypted at once by `fin`, against the tag set before.
pub struct Decipher {
    alg: String,
    key: Vec<u8>,
    iv: Vec<u8>,
    aad: Vec<u8>,
    message: Vec<u8>,
    tag: Option<Vec<u8>>,
}

impl View for Decipher {
    type V = CipherView;

    closed spec fn view(&self) -> CipherView {
        CipherView {
            alg: self.alg@,
            key: self.key@,
            iv: self.iv@,
            aad: self.aad@,
            message: self.message@,
            tag: opt_bytes(self.tag),
        }
    }
}

impl Decipher {
    /// Starts a decryption: a cipher name that is not offered is refused, and the host is
    /// handed the key and nonce, which it may refuse.
    pub fn create(alg: &str, key: &[u8], iv: &[u8]) -> (r: Result<Self, CryptoErrno>)
        ensures
            !gcm_alg(alg@) ==> (r matches Err(e) && e.code() == 6),
            r matches Ok(c) ==> gcm_alg(alg@) && c@ == (CipherView {
                alg: alg@,
                key: key@,
                iv: iv@,
                aad: seq![],
                message: seq![],
                tag: None,
            }),
    {
        if !is_gcm_alg(alg) {
            return Err(unsupported());
        }
        if let Err(code) = host_decipher_open(alg, key, iv) {
            return Err(host_error(code));
        }
        Ok(
            Decipher {
                alg: string_from_chars(chars_of(alg)),
                key: copy_bytes(key),
                iv: copy_bytes(iv),
                aad: Vec::new(),
                message: Vec::new(),
                tag: None,
            },
        )
    }

    /// Adds associated data.
    pub fn set_aad(&mut self, data: &[u8]) -> (r: Result<(), CryptoErrno>)
        ensures
            r is Ok,
            final(self)@ == (CipherView { aad: old(self)@.aad + data@, ..old(self)@ }),
    {
        append_bytes(&mut self.aad, data);
        Ok(())
    }

    /// Adds ciphertext bytes.
    pub fn update(&mut self, data: &[u8]) -> (r: Result<(), CryptoErrno>)
        ensures
            r is Ok,
            final(self)@ == (CipherView { message: old(self)@.message + data@, ..old(self)@ }),
    {
        append_bytes(&mut self.message, data);
        Ok(())
    }

    /// Sets the tag that the ciphertext is checked against.
    pub fn set_auth_tag(&mut self, data: &[u8]) -> (r: Result<(), CryptoErrno>)
        ensures
            r is Ok,
            final(self)@ == (CipherView { tag: Some(data@), ..old(self)@ }),
    {
        self.tag = Some(copy_bytes(data));
        Ok(())
    }

    fn open(&self, msg: &[u8]) -> (r: Result<Vec<u8>, CryptoErrno>)
        ensures
            self@.tag is None ==> (r matches Err(e) && e.code() == 22),
            r matches Ok(p) ==> self@.tag matches Some(t) && p@ == aead_open(
                self@.alg,
                self@.key,
                self@.iv,
                self@.aad,
                t,
                msg@,
            ) && p@.len() == msg@.len(),
    {
        match &self.tag {
            Some(t) => match host_decrypt(
                self.alg.as_str(),
                self.key.as_slice(),
                self.iv.as_slice(),
                self.aad.as_slice(),
                t.as_slice(),
                msg,
            ) {
                Ok(p) => Ok(p),
                Err(code) => Err(host_error(code)),
            },
            None => Err(invalid_operation()),
        }
    }

    /// Decrypts the gathered ciphertext against the tag; refused before a tag is set.
    pub fn fin(&mut self) -> (r: Result<Vec<u8>, CryptoErrno>)
        ensures
            final(self)@ == old(self)@,
            old(self)@.tag is None ==> (r matches Err(e) && e.code() == 22),
            r matches Ok(p) ==> old(self)@.tag matches Some(t) && p@ == aead_open(
                old(self)@.alg,
                old(self)@.key,
                old(self)@.iv,
                old(self)@.aad,
                t,
                old(self)@.message,
            ) && p@.len() == old(self)@.message.len(),
    {
        self.open(self.message.as_slice())
    }

    /// Decrypts the given data in place of the gathered ciphertext; refused before a tag
    /// is set.
    pub fn decrypt(&mut self, data: &[u8]) -> (r: Result<Vec<u8>, CryptoErrno>)
        ensures
            final(self)@ == old(self)@,
            old(self)@.tag is None ==> (r matches Err(e) && e.code() == 22),
            r matches Ok(p) ==> old(self)@.tag matches Some(t) && p@ == aead_open(
                old(self)@.alg,
                old(self)@.key,
                old(self)@.iv,
                old(self)@.aad,
                t,
                data@,
            ) && p@.len() == data@.len(),
    {
        self.open(data)
    }
}

/// Decrypts a ciphertext with associated data and tag at once.
pub fn decrypt(alg: &str, key: &[u8], iv: &[u8], aad: &[u8], auth_tag: &[u8], msg: &[u8]) -> (r:
    Result<Vec<u8>, CryptoErrno>)
    ensures
        !gcm_alg(alg@) ==> (r matches Err(e) && e.code() == 6),
        r matches Ok(p) ==> p@ == aead_open(alg@, key@, iv@, aad@, auth_tag@, msg@) && p@.len()
            == msg@.len(),
{
    let mut c = match Decipher::create(alg, key, iv) {
        Ok(c) => c,
        Err(e) => return Err(e),
    };
    let _ = c.set_aad(aad);
    let _ = c.set_auth_tag(auth_tag);
    assert(c@.aad =~= aad@);
    c.decrypt(msg)
}

/// The scrypt key: PBKDF2 with HMAC/SHA-256 and one iteration stretches the password and
/// salt to `p` blocks of `128r` bytes, ROMix mixes each block, and PBKDF2 again derives
/// `keylen` bytes with the mixed blocks as salt.
pub open spec fn scrypt_key(pw: Seq<u8>, salt: Seq<u8>, n: nat, r: nat, p: nat, keylen: nat) -> Seq<
    u8,
> {
    let b = pbkdf2_key("HMAC/SHA-256"@, pw, salt, 1, p * 128 * r);
    pbkdf2_key("HMAC/SHA-256"@, pw, rom_blocks(b, r, n, p), 1, keylen)
}

/// scrypt, as `crypto.scryptSync` computes it, with cost `n`, block size `r` and
/// parallelism `p`. With no blocks (`p` zero) and an empty key it asks the host nothing and
/// the key is empty.
pub fn scrypt(password: &[u8], salt: &[u8], n: usize, r: usize, p: usize, keylen: usize) -> (r_: Result<
    Vec<u8>,
    CryptoErrno,
>)
    requires
        n >= 1,
        r >= 1,
        p * 128 * r <= usize::MAX,
        256 * r <= usize::MAX,
        128 * r * n <= usize::MAX,
    ensures
        p == 0 && keylen == 0 ==> (r_ matches Ok(v) && v@.len() == 0),
        r_ matches Ok(v) ==> v@ == scrypt_key(
            password@,
            salt@,
            n as nat,
            r as nat,
            p as nat,
            keylen as nat,
        ),
{
    assert(p * 128 <= p * 128 * r) by (nonlinear_arith)
        requires
            r >= 1,
    ;
    let blen: usize = p * 128 * r;
    assert(p == 0 ==> p * 128 * r == 0) by (nonlinear_arith);
    let b = match pbkdf2("HMAC/SHA-256", password, salt, 1, blen) {
        Ok(b) => b,
        Err(e) => return Err(e),
    };
    let s = scrypt_rom(b.as_slice(), r, n, p);
    pbkdf2("HMAC/SHA-256", password, s.as_slice(), 1, keylen)
}

/// The error object for a cryptography error number.
pub fn errno_to_js_object(e: CryptoErrno) -> (r: ErrorObject)
    ensures
        r.message == CryptoErrno::message_of(e.code()),
        r.code == CryptoErrno::name_of(e.code()),
        r.errno == e.code() as i32,
{
    let n = e.raw();
    ErrorObject { message: e.message(), code: e.name(), errno: n as i32 }
}

/// `Cipher::encrypt` with some data is `update` with that data and then `fin`, on a
/// cipher that has gathered no message yet: both seal the same bytes.
pub proof fn lemma_encrypt_is_update_then_fin(c: CipherView, data: Seq<u8>)
    requires
        c.message == Seq::<u8>::empty(),
    ensures
        aead_seal(c.alg, c.key, c.iv, c.aad, (CipherView { message: c.message + data, ..c }).message)
            == aead_seal(c.alg, c.key, c.iv, c.aad, data),
{
    assert(c.message + data =~= data);
}

/// `Decipher::decrypt` with some data is `update` with that data and then `fin`, on a
/// decipher that has gathered no ciphertext yet: both open the same bytes.
pub proof fn lemma_decrypt_is_update_then_fin(c: CipherView, data: Seq<u8>, tag: Seq<u8>)
    requires
        c.message == Seq::<u8>::empty(),
    ensures
        aead_open(c.alg, c.key, c.iv, c.aad, tag, (CipherView { message: c.message + data, ..c }).message)
            == aead_open(c.alg, c.key, c.iv, c.aad, tag, data),
{
    assert(c.message + data =~= data);
}

/// scrypt follows RFC 7914, section 6, with PBKDF2-HMAC-SHA-256 of exactly one iteration at
/// both ends: byte `q` of the stretched blocks is byte `q % 32` of the HMAC, keyed with the
/// password, of the salt and the big-endian block number `q / 32 + 1`; byte `q` of the key
/// is byte `q % 32` of the HMAC, keyed with the password, of the blocks after ROMix and the
/// block number `q / 32 + 1`.
pub proof fn lemma_scrypt_one_iteration(
    pw: Seq<u8>,
    salt: Seq<u8>,
    n: nat,
    r: nat,
    p: nat,
    keylen: nat,
)
    ensures
        ({
            let alg = "HMAC/SHA-256"@;
            let b = Seq::new(
                p * 128 * r,
                |q: int| hmac_value(alg, pw, salt + be32((q / 32 + 1) as nat))[q % 32],
            );
            let key = scrypt_key(pw, salt, n, r, p, keylen);
            &&& key.len() == keylen
            &&& forall|q: int|
                0 <= q < keylen ==> #[trigger] key[q] == hmac_value(
                    alg,
                    pw,
                    rom_blocks(b, r, n, p) + be32((q / 32 + 1) as nat),
                )[q % 32]
        }),
{
    let alg = "HMAC/SHA-256"@;
    assert(pbkdf2_hash_len(alg) == Some(32nat));
    let b = Seq::new(
        p * 128 * r,
        |q: int| hmac_value(alg, pw, salt + be32((q / 32 + 1) as nat))[q % 32],
    );
    let b0 = pbkdf2_key(alg, pw, salt, 1, p * 128 * r);
    assert forall|q: int| 0 <= q < b0.len() implies b0[q] == b[q] by {
        assert(pbkdf2_t(alg, pw, salt, (q / 32 + 1) as nat, 1) == pbkdf2_u(
            alg,
            pw,
            salt,
            (q / 32 + 1) as nat,
            1,
        ));
    }
    assert(b0 =~= b);
    let key = scrypt_key(pw, salt, n, r, p, keylen);
    let s = rom_blocks(b, r, n, p);
    assert forall|q: int| 0 <= q < keylen implies #[trigger] key[q] == hmac_value(
        alg,
        pw,
        s + be32((q / 32 + 1) as nat),
    )[q % 32] by {
        assert(pbkdf2_t(alg, pw, s, (q / 32 + 1) as nat, 1) == pbkdf2_u(
            alg,
            pw,
            s,
            (q / 32 + 1) as nat,
            1,
        ));
    }
}

/// HKDF expansion follows RFC 5869: with the pseudorandom key `PRK = HMAC(salt, key)`, the
/// first block of the output is `HMAC(PRK, info || 0x01)`, and block `j + 1` is
/// `HMAC(PRK, T(j) || info || j + 1)`, the block counter starting at one.
pub proof fn lemma_hkdf_blocks(
    alg: Seq<char>,
    key: Seq<u8>,
    salt: Seq<u8>,
    info: Seq<u8>,
    key_len: nat,
)
    requires
        hkdf_hash_len(alg) is Some,
    ensures
        ({
            let h = hkdf_hash_len(alg)->Some_0 as int;
            let prk = hmac_value(alg, salt, key);
            let okm = hkdf_key(alg, key, salt, info, key_len);
            &&& okm.len() == key_len
            &&& forall|q: int|
                0 <= q < key_len && q < h ==> #[trigger] okm[q] == hmac_value(
                    alg,
                    prk,
                    info + seq![1u8],
                )[q]
            &&& forall|q: int|
                0 <= q < key_len && q >= h ==> #[trigger] okm[q] == hmac_value(
                    alg,
                    prk,
                    hkdf_t(alg, prk, info, (q / h) as nat) + info + seq![(q / h + 1) as u8],
                )[q % h]
        }),
{
    let h = hkdf_hash_len(alg)->Some_0 as int;
    let prk = hmac_value(alg, salt, key);
    let okm = hkdf_key(alg, key, salt, info, key_len);
    let t0 = hkdf_t(alg, prk, info, 0);
    assert(t0 == Seq::<u8>::empty());
    assert(t0 + info + seq![(1nat) as u8] =~= info + seq![1u8]);
    assert(hkdf_t(alg, prk, info, 1) == hmac_value(alg, prk, info + seq![1u8]));
    assert forall|q: int| 0 <= q < key_len && q < h implies #[trigger] okm[q] == hmac_value(
        alg,
        prk,
        info + seq![1u8],
    )[q] by {
        assert(q / h == 0) by (nonlinear_arith)
            requires
                0 <= q < h,
        ;
        assert(q % h == q) by (nonlinear_arith)
            requires
                0 <= q < h,
        ;
    }
    assert forall|q: int| 0 <= q < key_len && q >= h implies #[trigger] okm[q] == hmac_value(
        alg,
        prk,
        hkdf_t(alg, prk, info, (q / h) as nat) + info + seq![(q / h + 1) as u8],
    )[q % h] by {
        assert(q / h >= 1) by (nonlinear_arith)
            requires
                q >= h > 0,
        ;
        let j = (q / h + 1) as nat;
        assert(hkdf_t(alg, prk, info, j) == hmac_value(
            alg,
            prk,
            hkdf_t(alg, prk, info, (j - 1) as nat) + info + seq![j as u8],
        ));
    }
}

} // verus!
