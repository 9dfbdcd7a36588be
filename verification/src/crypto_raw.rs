use vstd::prelude::*;

verus! {

/// Error codes returned by the WASI cryptography calls.
///
/// The defined codes run from 0 to 30:
/// * 0 (`CRYPTO_ERRNO_SUCCESS`): Operation succeeded.
/// * 1 (`CRYPTO_ERRNO_GUEST_ERROR`): An error occurred when trying to during a conversion from a host type to a
/// * 2 (`CRYPTO_ERRNO_NOT_IMPLEMENTED`): The requested operation is valid, but not implemented by the host.
/// * 3 (`CRYPTO_ERRNO_UNSUPPORTED_FEATURE`): The requested feature is not supported by the chosen algorithm.
/// * 4 (`CRYPTO_ERRNO_PROHIBITED_OPERATION`): The requested operation is valid, but was administratively prohibited.
/// * 5 (`CRYPTO_ERRNO_UNSUPPORTED_ENCODING`): Unsupported encoding for an import or export operation.
/// * 6 (`CRYPTO_ERRNO_UNSUPPORTED_ALGORITHM`): The requested algorithm is not supported by the host.
/// * 7 (`CRYPTO_ERRNO_UNSUPPORTED_OPTION`): The requested option is not supported by the currently selected algorithm.
/// * 8 (`CRYPTO_ERRNO_INVALID_KEY`): An invalid or incompatible key was supplied.
/// * 9 (`CRYPTO_ERRNO_INVALID_LENGTH`): The currently selected algorithm doesn't support the requested output
/// * 10 (`CRYPTO_ERRNO_VERIFICATION_FAILED`): A signature or authentication tag verification failed.
/// * 11 (`CRYPTO_ERRNO_RNG_ERROR`): A secure random numbers generator is not available.
/// * 12 (`CRYPTO_ERRNO_ALGORITHM_FAILURE`): An error was returned by the underlying cryptography library.
/// * 13 (`CRYPTO_ERRNO_INVALID_SIGNATURE`): The supplied signature is invalid, or incompatible with the chosen
/// * 14 (`CRYPTO_ERRNO_CLOSED`): An attempt was made to close a handle that was already closed.
/// * 15 (`CRYPTO_ERRNO_INVALID_HANDLE`): A function was called with an unassigned handle, a closed handle, or handle
/// * 16 (`CRYPTO_ERRNO_OVERFLOW`): The host needs to copy data to a guest-allocated buffer, but that buffer is
/// * 17 (`CRYPTO_ERRNO_INTERNAL_ERROR`): An internal error occurred.
/// * 18 (`CRYPTO_ERRNO_TOO_MANY_HANDLES`): Too many handles are currently open, and a new one cannot be created.
/// * 19 (`CRYPTO_ERRNO_KEY_NOT_SUPPORTED`): A key was provided, but the chosen algorithm doesn't support keys.
/// * 20 (`CRYPTO_ERRNO_KEY_REQUIRED`): A key is required for the chosen algorithm, but none was given.
/// * 21 (`CRYPTO_ERRNO_INVALID_TAG`): The provided authentication tag is invalid or incompatible with the current
/// * 22 (`CRYPTO_ERRNO_INVALID_OPERATION`): The requested operation is incompatible with the current scheme.
/// * 23 (`CRYPTO_ERRNO_NONCE_REQUIRED`): A nonce is required.
/// * 24 (`CRYPTO_ERRNO_INVALID_NONCE`): The provided nonce doesn't have a correct size for the given cipher.
/// * 25 (`CRYPTO_ERRNO_OPTION_NOT_SET`): The named option was not set.
/// * 26 (`CRYPTO_ERRNO_NOT_FOUND`): A key or key pair matching the requested identifier cannot be found using
/// * 27 (`CRYPTO_ERRNO_PARAMETERS_MISSING`): The algorithm requires parameters that haven't been set.
/// * 28 (`CRYPTO_ERRNO_IN_PROGRESS`): A requested computation is not done yet, and additional calls to the
/// * 29 (`CRYPTO_ERRNO_INCOMPATIBLE_KEYS`): Multiple keys have been provided, but they do not share the same type.
/// * 30 (`CRYPTO_ERRNO_EXPIRED`): A managed key or secret expired and cannot be used any more.
#[derive(Copy, Clone, PartialEq, Eq, Structural, Hash, Debug)]
pub struct CryptoErrno(u16);

impl CryptoErrno {
    #[verifier::type_invariant]
    spec fn defined(self) -> bool {
        self.0 <= 30
    }

    /// The numeric code of this value.
    pub closed spec fn code(self) -> u16 {
        self.0
    }

    /// The largest defined code.
    pub open spec fn max_code() -> u16 {
        30
    }

    /// The short name of a code.
    pub open spec fn name_of(code: u16) -> &'static str {
        match code {
            0 => "SUCCESS",
            1 => "GUEST_ERROR",
            2 => "NOT_IMPLEMENTED",
            3 => "UNSUPPORTED_FEATURE",
            4 => "PROHIBITED_OPERATION",
            5 => "UNSUPPORTED_ENCODING",
            6 => "UNSUPPORTED_ALGORITHM",
            7 => "UNSUPPORTED_OPTION",
            8 => "INVALID_KEY",
            9 => "INVALID_LENGTH",
            10 => "VERIFICATION_FAILED",
            11 => "RNG_ERROR",
            12 => "ALGORITHM_FAILURE",
            13 => "INVALID_SIGNATURE",
            14 => "CLOSED",
            15 => "INVALID_HANDLE",
            16 => "OVERFLOW",
            17 => "INTERNAL_ERROR",
            18 => "TOO_MANY_HANDLES",
            19 => "KEY_NOT_SUPPORTED",
            20 => "KEY_REQUIRED",
            21 => "INVALID_TAG",
            22 => "INVALID_OPERATION",
            23 => "NONCE_REQUIRED",
            24 => "INVALID_NONCE",
            25 => "OPTION_NOT_SET",
            26 => "NOT_FOUND",
            27 => "PARAMETERS_MISSING",
            28 => "IN_PROGRESS",
            29 => "INCOMPATIBLE_KEYS",
            30 => "EXPIRED",
            _ => "",
        }
    }

    /// The description of a code.
    pub open spec fn message_of(code: u16) -> &'static str {
        match code {
            0 => "Operation succeeded.",
            1 => "An error occurred when trying to during a conversion from a host type to a guest \
                 type.

Only an internal bug can throw this error.",
            2 => "The requested operation is valid, but not implemented by the host.",
            3 => "The requested feature is not supported by the chosen algorithm.",
            4 => "The requested operation is valid, but was administratively prohibited.",
            5 => "Unsupported encoding for an import or export operation.",
            6 => "The requested algorithm is not supported by the host.",
            7 => "The requested option is not supported by the currently selected algorithm.",
            8 => "An invalid or incompatible key was supplied.

The key may not be valid, or was generated for a different algorithm or parameters set.",
            9 => "The currently selected algorithm doesn't support the requested output length.

This error is thrown by non-extensible hash functions, when requesting an output size larger than \
                 they produce out of a single block.",
            10 => "A signature or authentication tag verification failed.",
            11 => "A secure random numbers generator is not available.

The requested operation requires random numbers, but the host cannot securely generate them at the \
                 moment.",
            12 => "An error was returned by the underlying cryptography library.

The host may be running out of memory, parameters may be incompatible with the chosen \
                 implementation of an algorithm or another unexpected error may have happened.

Ideally, the specification should provide enough details and guidance to make this error \
                 impossible to ever be thrown.

Realistically, the WASI crypto module cannot possibly cover all possible error types \
                 implementations can return, especially since some of these may be \
                 language-specific.
This error can thus be thrown when other error types are not suitable, and when the original error \
                 comes from the cryptographic primitives themselves and not from the WASI module.",
            13 => "The supplied signature is invalid, or incompatible with the chosen algorithm.",
            14 => "An attempt was made to close a handle that was already closed.",
            15 => "A function was called with an unassigned handle, a closed handle, or handle of an \
                 unexpected type.",
            16 => "The host needs to copy data to a guest-allocated buffer, but that buffer is too \
                 small.",
            17 => "An internal error occurred.

This error is reserved to internal consistency checks, and must only be sent if the internal state \
                 of the host remains safe after an inconsistency was detected.",
            18 => "Too many handles are currently open, and a new one cannot be created.

Implementations are free to represent handles as they want, and to enforce limits to limit \
                 resources usage.",
            19 => "A key was provided, but the chosen algorithm doesn't support keys.

This is returned by symmetric operations.

Many hash functions, in particular, do not support keys without being used in particular \
                 constructions.
Blindly ignoring a key provided by mistake while trying to open a context for such as function \
                 could cause serious security vulnerabilities.

These functions must refuse to create the context and return this error instead.",
            20 => "A key is required for the chosen algorithm, but none was given.",
            21 => "The provided authentication tag is invalid or incompatible with the current \
                 algorithm.

This error is returned by decryption functions and tag verification functions.

Unlike `verification_failed`, this error code is returned when the tag cannot possibly verify for \
                 any input.",
            22 => "The requested operation is incompatible with the current scheme.

For example, the `symmetric_state_encrypt()` function cannot complete if the selected construction \
                 is a key derivation function.
This error code will be returned instead.",
            23 => "A nonce is required.

Most encryption schemes require a nonce.

In the absence of a nonce, the WASI cryptography module can automatically generate one, if that \
                 can be done safely. The nonce can be retrieved later with the \
                 `symmetric_state_option_get()` function using the `nonce` parameter.
If automatically generating a nonce cannot be done safely, the module never falls back to an \
                 insecure option and requests an explicit nonce by throwing that error.",
            24 => "The provided nonce doesn't have a correct size for the given cipher.",
            25 => "The named option was not set.

The caller tried to read the value of an option that was not set.
This error is used to make the distinction between an empty option, and an option that was not set \
                 and left to its default value.",
            26 => "A key or key pair matching the requested identifier cannot be found using the \
                 supplied information.

This error is returned by a secrets manager via the `keypair_from_id()` function.",
            27 => "The algorithm requires parameters that haven't been set.

Non-generic options are required and must be given by building an `options` set and giving that \
                 object to functions instantiating that algorithm.",
            28 => "A requested computation is not done yet, and additional calls to the function are \
                 required.

Some functions, such as functions generating key pairs and password stretching functions, can take \
                 a long time to complete.

In order to avoid a host call to be blocked for too long, these functions can return prematurely, \
                 requiring additional calls with the same parameters until they complete.",
            29 => "Multiple keys have been provided, but they do not share the same type.

This error is returned when trying to build a key pair from a public key and a secret key that \
                 were created for different and incompatible algorithms.",
            30 => "A managed key or secret expired and cannot be used any more.",
            _ => "",
        }
    }

    /// The numeric code of this value.
    pub fn raw(&self) -> (r: u16)
        ensures
            r == self.code(),
            r <= Self::max_code(),
    {
        proof {
            use_type_invariant(self);
        }
        self.0
    }

    /// Two values with the same code are the same value, so `from_raw` of `raw()` gives a
    /// value back.
    pub proof fn lemma_code_identifies(a: Self, b: Self)
        ensures
            a.code() == b.code() ==> a == b,
    {
    }

    /// The value with the given code, if the code is defined.
    pub fn from_raw(v: u16) -> (r: Option<Self>)
        ensures
            r matches Some(e) ==> e.code() == v,
            r is None <==> v > Self::max_code(),
    {
        if v <= 30 {
            Some(CryptoErrno(v))
        } else {
            None
        }
    }

    /// The value for a code reported by the host: the defined value with that code, or
    /// `INTERNAL_ERROR` (17) for a code that no value has.
    pub fn from_host(v: u16) -> (r: Self)
        ensures
            v <= Self::max_code() ==> r.code() == v,
            v > Self::max_code() ==> r.code() == 17,
    {
        if v <= 30 {
            CryptoErrno(v)
        } else {
            CryptoErrno(17)
        }
    }

    /// The short name of this value.
    pub fn name(&self) -> (r: &'static str)
        ensures
            r == Self::name_of(self.code()),
    {
        proof {
            use_type_invariant(self);
        }
        match self.0 {
            0 => "SUCCESS",
            1 => "GUEST_ERROR",
            2 => "NOT_IMPLEMENTED",
            3 => "UNSUPPORTED_FEATURE",
            4 => "PROHIBITED_OPERATION",
            5 => "UNSUPPORTED_ENCODING",
            6 => "UNSUPPORTED_ALGORITHM",
            7 => "UNSUPPORTED_OPTION",
            8 => "INVALID_KEY",
            9 => "INVALID_LENGTH",
            10 => "VERIFICATION_FAILED",
            11 => "RNG_ERROR",
            12 => "ALGORITHM_FAILURE",
            13 => "INVALID_SIGNATURE",
            14 => "CLOSED",
            15 => "INVALID_HANDLE",
            16 => "OVERFLOW",
            17 => "INTERNAL_ERROR",
            18 => "TOO_MANY_HANDLES",
            19 => "KEY_NOT_SUPPORTED",
            20 => "KEY_REQUIRED",
            21 => "INVALID_TAG",
            22 => "INVALID_OPERATION",
            23 => "NONCE_REQUIRED",
            24 => "INVALID_NONCE",
            25 => "OPTION_NOT_SET",
            26 => "NOT_FOUND",
            27 => "PARAMETERS_MISSING",
            28 => "IN_PROGRESS",
            29 => "INCOMPATIBLE_KEYS",
            30 => "EXPIRED",
            _ => "",
        }
    }

    /// The description of this value.
    pub fn message(&self) -> (r: &'static str)
        ensures
            r == Self::message_of(self.code()),
    {
        proof {
            use_type_invariant(self);
        }
        match self.0 {
            0 => "Operation succeeded.",
            1 => "An error occurred when trying to during a conversion from a host type to a guest \
                 type.

Only an internal bug can throw this error.",
            2 => "The requested operation is valid, but not implemented by the host.",
            3 => "The requested feature is not supported by the chosen algorithm.",
            4 => "The requested operation is valid, but was administratively prohibited.",
            5 => "Unsupported encoding for an import or export operation.",
            6 => "The requested algorithm is not supported by the host.",
            7 => "The requested option is not supported by the currently selected algorithm.",
            8 => "An invalid or incompatible key was supplied.

The key may not be valid, or was generated for a different algorithm or parameters set.",
            9 => "The currently selected algorithm doesn't support the requested output length.

This error is thrown by non-extensible hash functions, when requesting an output size larger than \
                 they produce out of a single block.",
            10 => "A signature or authentication tag verification failed.",
            11 => "A secure random numbers generator is not available.

The requested operation requires random numbers, but the host cannot securely generate them at the \
                 moment.",
            12 => "An error was returned by the underlying cryptography library.

The host may be running out of memory, parameters may be incompatible with the chosen \
                 implementation of an algorithm or another unexpected error may have happened.

Ideally, the specification should provide enough details and guidance to make this error \
                 impossible to ever be thrown.

Realistically, the WASI crypto module cannot possibly cover all possible error types \
                 implementations can return, especially since some of these may be \
                 language-specific.
This error can thus be thrown when other error types are not suitable, and when the original error \
                 comes from the cryptographic primitives themselves and not from the WASI module.",
            13 => "The supplied signature is invalid, or incompatible with the chosen algorithm.",
            14 => "An attempt was made to close a handle that was already closed.",
            15 => "A function was called with an unassigned handle, a closed handle, or handle of an \
                 unexpected type.",
            16 => "The host needs to copy data to a guest-allocated buffer, but that buffer is too \
                 small.",
            17 => "An internal error occurred.

This error is reserved to internal consistency checks, and must only be sent if the internal state \
                 of the host remains safe after an inconsistency was detected.",
            18 => "Too many handles are currently open, and a new one cannot be created.

Implementations are free to represent handles as they want, and to enforce limits to limit \
                 resources usage.",
            19 => "A key was provided, but the chosen algorithm doesn't support keys.

This is returned by symmetric operations.

Many hash functions, in particular, do not support keys without being used in particular \
                 constructions.
Blindly ignoring a key provided by mistake while trying to open a context for such as function \
                 could cause serious security vulnerabilities.

These functions must refuse to create the context and return this error instead.",
            20 => "A key is required for the chosen algorithm, but none was given.",
            21 => "The provided authentication tag is invalid or incompatible with the current \
                 algorithm.

This error is returned by decryption functions and tag verification functions.

Unlike `verification_failed`, this error code is returned when the tag cannot possibly verify for \
                 any input.",
            22 => "The requested operation is incompatible with the current scheme.

For example, the `symmetric_state_encrypt()` function cannot complete if the selected construction \
                 is a key derivation function.
This error code will be returned instead.",
            23 => "A nonce is required.

Most encryption schemes require a nonce.

In the absence of a nonce, the WASI cryptography module can automatically generate one, if that \
                 can be done safely. The nonce can be retrieved later with the \
                 `symmetric_state_option_get()` function using the `nonce` parameter.
If automatically generating a nonce cannot be done safely, the module never falls back to an \
                 insecure option and requests an explicit nonce by throwing that error.",
            24 => "The provided nonce doesn't have a correct size for the given cipher.",
            25 => "The named option was not set.

The caller tried to read the value of an option that was not set.
This error is used to make the distinction between an empty option, and an option that was not set \
                 and left to its default value.",
            26 => "A key or key pair matching the requested identifier cannot be found using the \
                 supplied information.

This error is returned by a secrets manager via the `keypair_from_id()` function.",
            27 => "The algorithm requires parameters that haven't been set.

Non-generic options are required and must be given by building an `options` set and giving that \
                 object to functions instantiating that algorithm.",
            28 => "A requested computation is not done yet, and additional calls to the function are \
                 required.

Some functions, such as functions generating key pairs and password stretching functions, can take \
                 a long time to complete.

In order to avoid a host call to be blocked for too long, these functions can return prematurely, \
                 requiring additional calls with the same parameters until they complete.",
            29 => "Multiple keys have been provided, but they do not share the same type.

This error is returned when trying to build a key pair from a public key and a secret key that \
                 were created for different and incompatible algorithms.",
            30 => "A managed key or secret expired and cannot be used any more.",
            _ => "",
        }
    }

}

/// Encoding of a key pair.
///
/// The defined codes run from 0 to 3:
/// * 0 (`KEYPAIR_ENCODING_RAW`): Raw bytes.
/// * 1 (`KEYPAIR_ENCODING_PKCS8`): PCSK8/DER encoding.
/// * 2 (`KEYPAIR_ENCODING_PEM`): PEM encoding.
/// * 3 (`KEYPAIR_ENCODING_LOCAL`): Implementation-defined encoding.
#[derive(Copy, Clone, PartialEq, Eq, Structural, Hash, Debug)]
pub struct KeypairEncoding(u16);

impl KeypairEncoding {
    #[verifier::type_invariant]
    spec fn defined(self) -> bool {
        self.0 <= 3
    }

    /// The numeric code of this value.
    pub closed spec fn code(self) -> u16 {
        self.0
    }

    /// The largest defined code.
    pub open spec fn max_code() -> u16 {
        3
    }

    /// The short name of a code.
    pub open spec fn name_of(code: u16) -> &'static str {
        match code {
            0 => "RAW",
            1 => "PKCS8",
            2 => "PEM",
            3 => "LOCAL",
            _ => "",
        }
    }

    /// The description of a code.
    pub open spec fn message_of(code: u16) -> &'static str {
        match code {
            0 => "Raw bytes.",
            1 => "PCSK8/DER encoding.",
            2 => "PEM encoding.",
            3 => "Implementation-defined encoding.",
            _ => "",
        }
    }

    /// The numeric code of this value.
    pub fn raw(&self) -> (r: u16)
        ensures
            r == self.code(),
            r <= Self::max_code(),
    {
        proof {
            use_type_invariant(self);
        }
        self.0
    }

    /// Two values with the same code are the same value, so `from_raw` of `raw()` gives a
    /// value back.
    pub proof fn lemma_code_identifies(a: Self, b: Self)
        ensures
            a.code() == b.code() ==> a == b,
    {
    }

    /// The value with the given code, if the code is defined.
    pub fn from_raw(v: u16) -> (r: Option<Self>)
        ensures
            r matches Some(e) ==> e.code() == v,
            r is None <==> v > Self::max_code(),
    {
        if v <= 3 {
            Some(KeypairEncoding(v))
        } else {
            None
        }
    }

    /// The short name of this value.
    pub fn name(&self) -> (r: &'static str)
        ensures
            r == Self::name_of(self.code()),
    {
        proof {
            use_type_invariant(self);
        }
        match self.0 {
            0 => "RAW",
            1 => "PKCS8",
            2 => "PEM",
            3 => "LOCAL",
            _ => "",
        }
    }

    /// The description of this value.
    pub fn message(&self) -> (r: &'static str)
        ensures
            r == Self::message_of(self.code()),
    {
        proof {
            use_type_invariant(self);
        }
        match self.0 {
            0 => "Raw bytes.",
            1 => "PCSK8/DER encoding.",
            2 => "PEM encoding.",
            3 => "Implementation-defined encoding.",
            _ => "",
        }
    }

}

/// Encoding of a public key.
///
/// The defined codes run from 0 to 4:
/// * 0 (`PUBLICKEY_ENCODING_RAW`): Raw bytes.
/// * 1 (`PUBLICKEY_ENCODING_PKCS8`): PKCS8/DER encoding.
/// * 2 (`PUBLICKEY_ENCODING_PEM`): PEM encoding.
/// * 3 (`PUBLICKEY_ENCODING_SEC`): SEC-1 encoding.
/// * 4 (`PUBLICKEY_ENCODING_LOCAL`): Implementation-defined encoding.
#[derive(Copy, Clone, PartialEq, Eq, Structural, Hash, Debug)]
pub struct PublickeyEncoding(u16);

impl PublickeyEncoding {
    #[verifier::type_invariant]
    spec fn defined(self) -> bool {
        self.0 <= 4
    }

    /// The numeric code of this value.
    pub closed spec fn code(self) -> u16 {
        self.0
    }

    /// The largest defined code.
    pub open spec fn max_code() -> u16 {
        4
    }

    /// The short name of a code.
    pub open spec fn name_of(code: u16) -> &'static str {
        match code {
            0 => "RAW",
            1 => "PKCS8",
            2 => "PEM",
            3 => "SEC",
            4 => "LOCAL",
            _ => "",
        }
    }

    /// The description of a code.
    pub open spec fn message_of(code: u16) -> &'static str {
        match code {
            0 => "Raw bytes.",
            1 => "PKCS8/DER encoding.",
            2 => "PEM encoding.",
            3 => "SEC-1 encoding.",
            4 => "Implementation-defined encoding.",
            _ => "",
        }
    }

    /// The numeric code of this value.
    pub fn raw(&self) -> (r: u16)
        ensures
            r == self.code(),
            r <= Self::max_code(),
    {
        proof {
            use_type_invariant(self);
        }
        self.0
    }

    /// Two values with the same code are the same value, so `from_raw` of `raw()` gives a
    /// value back.
    pub proof fn lemma_code_identifies(a: Self, b: Self)
        ensures
            a.code() == b.code() ==> a == b,
    {
    }

    /// The value with the given code, if the code is defined.
    pub fn from_raw(v: u16) -> (r: Option<Self>)
        ensures
            r matches Some(e) ==> e.code() == v,
            r is None <==> v > Self::max_code(),
    {
        if v <= 4 {
            Some(PublickeyEncoding(v))
        } else {
            None
        }
    }

    /// The short name of this value.
    pub fn name(&self) -> (r: &'static str)
        ensures
            r == Self::name_of(self.code()),
    {
        proof {
            use_type_invariant(self);
        }
        match self.0 {
            0 => "RAW",
            1 => "PKCS8",
            2 => "PEM",
            3 => "SEC",
            4 => "LOCAL",
            _ => "",
        }
    }

    /// The description of this value.
    pub fn message(&self) -> (r: &'static str)
        ensures
            r == Self::message_of(self.code()),
    {
        proof {
            use_type_invariant(self);
        }
        match self.0 {
            0 => "Raw bytes.",
            1 => "PKCS8/DER encoding.",
            2 => "PEM encoding.",
            3 => "SEC-1 encoding.",
            4 => "Implementation-defined encoding.",
            _ => "",
        }
    }

}

/// Encoding of a secret key.
///
/// The defined codes run from 0 to 4:
/// * 0 (`SECRETKEY_ENCODING_RAW`): Raw bytes.
/// * 1 (`SECRETKEY_ENCODING_PKCS8`): PKCS8/DER encoding.
/// * 2 (`SECRETKEY_ENCODING_PEM`): PEM encoding.
/// * 3 (`SECRETKEY_ENCODING_SEC`): SEC-1 encoding.
/// * 4 (`SECRETKEY_ENCODING_LOCAL`): Implementation-defined encoding.
#[derive(Copy, Clone, PartialEq, Eq, Structural, Hash, Debug)]
pub struct SecretkeyEncoding(u16);

impl SecretkeyEncoding {
    #[verifier::type_invariant]
    spec fn defined(self) -> bool {
        self.0 <= 4
    }

    /// The numeric code of this value.
    pub closed spec fn code(self) -> u16 {
        self.0
    }

    /// The largest defined code.
    pub open spec fn max_code() -> u16 {
        4
    }

    /// The short name of a code.
    pub open spec fn name_of(code: u16) -> &'static str {
        match code {
            0 => "RAW",
            1 => "PKCS8",
            2 => "PEM",
            3 => "SEC",
            4 => "LOCAL",
            _ => "",
        }
    }

    /// The description of a code.
    pub open spec fn message_of(code: u16) -> &'static str {
        match code {
            0 => "Raw bytes.",
            1 => "PKCS8/DER encoding.",
            2 => "PEM encoding.",
            3 => "SEC-1 encoding.",
            4 => "Implementation-defined encoding.",
            _ => "",
        }
    }

    /// The numeric code of this value.
    pub fn raw(&self) -> (r: u16)
        ensures
            r == self.code(),
            r <= Self::max_code(),
    {
        proof {
            use_type_invariant(self);
        }
        self.0
    }

    /// Two values with the same code are the same value, so `from_raw` of `raw()` gives a
    /// value back.
    pub proof fn lemma_code_identifies(a: Self, b: Self)
        ensures
            a.code() == b.code() ==> a == b,
    {
    }

    /// The value with the given code, if the code is defined.
    pub fn from_raw(v: u16) -> (r: Option<Self>)
        ensures
            r matches Some(e) ==> e.code() == v,
            r is None <==> v > Self::max_code(),
    {
        if v <= 4 {
            Some(SecretkeyEncoding(v))
        } else {
            None
        }
    }

    /// The short name of this value.
    pub fn name(&self) -> (r: &'static str)
        ensures
            r == Self::name_of(self.code()),
    {
        proof {
            use_type_invariant(self);
        }
        match self.0 {
            0 => "RAW",
            1 => "PKCS8",
            2 => "PEM",
            3 => "SEC",
            4 => "LOCAL",
            _ => "",
        }
    }

    /// The description of this value.
    pub fn message(&self) -> (r: &'static str)
        ensures
            r == Self::message_of(self.code()),
    {
        proof {
            use_type_invariant(self);
        }
        match self.0 {
            0 => "Raw bytes.",
            1 => "PKCS8/DER encoding.",
            2 => "PEM encoding.",
            3 => "SEC-1 encoding.",
            4 => "Implementation-defined encoding.",
            _ => "",
        }
    }

}

/// Encoding of a signature.
///
/// The defined codes run from 0 to 1:
/// * 0 (`SIGNATURE_ENCODING_RAW`): Raw bytes.
/// * 1 (`SIGNATURE_ENCODING_DER`): DER encoding.
#[derive(Copy, Clone, PartialEq, Eq, Structural, Hash, Debug)]
pub struct SignatureEncoding(u16);

impl SignatureEncoding {
    #[verifier::type_invariant]
    spec fn defined(self) -> bool {
        self.0 <= 1
    }

    /// The numeric code of this value.
    pub closed spec fn code(self) -> u16 {
        self.0
    }

    /// The largest defined code.
    pub open spec fn max_code() -> u16 {
        1
    }

    /// The short name of a code.
    pub open spec fn name_of(code: u16) -> &'static str {
        match code {
            0 => "RAW",
            1 => "DER",
            _ => "",
        }
    }

    /// The description of a code.
    pub open spec fn message_of(code: u16) -> &'static str {
        match code {
            0 => "Raw bytes.",
            1 => "DER encoding.",
            _ => "",
        }
    }

    /// The numeric code of this value.
    pub fn raw(&self) -> (r: u16)
        ensures
            r == self.code(),
            r <= Self::max_code(),
    {
        proof {
            use_type_invariant(self);
        }
        self.0
    }

    /// Two values with the same code are the same value, so `from_raw` of `raw()` gives a
    /// value back.
    pub proof fn lemma_code_identifies(a: Self, b: Self)
        ensures
            a.code() == b.code() ==> a == b,
    {
    }

    /// The value with the given code, if the code is defined.
    pub fn from_raw(v: u16) -> (r: Option<Self>)
        ensures
            r matches Some(e) ==> e.code() == v,
            r is None <==> v > Self::max_code(),
    {
        if v <= 1 {
            Some(SignatureEncoding(v))
        } else {
            None
        }
    }

    /// The short name of this value.
    pub fn name(&self) -> (r: &'static str)
        ensures
            r == Self::name_of(self.code()),
    {
        proof {
            use_type_invariant(self);
        }
        match self.0 {
            0 => "RAW",
            1 => "DER",
            _ => "",
        }
    }

    /// The description of this value.
    pub fn message(&self) -> (r: &'static str)
        ensures
            r == Self::message_of(self.code()),
    {
        proof {
            use_type_invariant(self);
        }
        match self.0 {
            0 => "Raw bytes.",
            1 => "DER encoding.",
            _ => "",
        }
    }

}

/// The kind of an algorithm.
///
/// The defined codes run from 0 to 2:
/// * 0 (`ALGORITHM_TYPE_SIGNATURES`)
/// * 1 (`ALGORITHM_TYPE_SYMMETRIC`)
/// * 2 (`ALGORITHM_TYPE_KEY_EXCHANGE`)
#[derive(Copy, Clone, PartialEq, Eq, Structural, Hash, Debug)]
pub struct AlgorithmType(u16);

impl AlgorithmType {
    #[verifier::type_invariant]
    spec fn defined(self) -> bool {
        self.0 <= 2
    }

    /// The numeric code of this value.
    pub closed spec fn code(self) -> u16 {
        self.0
    }

    /// The largest defined code.
    pub open spec fn max_code() -> u16 {
        2
    }

    /// The short name of a code.
    pub open spec fn name_of(code: u16) -> &'static str {
        match code {
            0 => "SIGNATURES",
            1 => "SYMMETRIC",
            2 => "KEY_EXCHANGE",
            _ => "",
        }
    }

    /// The description of a code.
    pub open spec fn message_of(code: u16) -> &'static str {
        match code {
            0 => "",
            1 => "",
            2 => "",
            _ => "",
        }
    }

    /// The numeric code of this value.
    pub fn raw(&self) -> (r: u16)
        ensures
            r == self.code(),
            r <= Self::max_code(),
    {
        proof {
            use_type_invariant(self);
        }
        self.0
    }

    /// Two values with the same code are the same value, so `from_raw` of `raw()` gives a
    /// value back.
    pub proof fn lemma_code_identifies(a: Self, b: Self)
        ensures
            a.code() == b.code() ==> a == b,
    {
    }

    /// The value with the given code, if the code is defined.
    pub fn from_raw(v: u16) -> (r: Option<Self>)
        ensures
            r matches Some(e) ==> e.code() == v,
            r is None <==> v > Self::max_code(),
    {
        if v <= 2 {
            Some(AlgorithmType(v))
        } else {
            None
        }
    }

    /// The short name of this value.
    pub fn name(&self) -> (r: &'static str)
        ensures
            r == Self::name_of(self.code()),
    {
        proof {
            use_type_invariant(self);
        }
        match self.0 {
            0 => "SIGNATURES",
            1 => "SYMMETRIC",
            2 => "KEY_EXCHANGE",
            _ => "",
        }
    }

    /// The description of this value.
    pub fn message(&self) -> (r: &'static str)
        ensures
            r == Self::message_of(self.code()),
    {
        proof {
            use_type_invariant(self);
        }
        match self.0 {
            0 => "",
            1 => "",
            2 => "",
            _ => "",
        }
    }

}

/// Tag telling whether an optional options handle is present.
///
/// The defined codes run from 0 to 1:
/// * 0 (`OPT_OPTIONS_U_SOME`)
/// * 1 (`OPT_OPTIONS_U_NONE`)
#[derive(Copy, Clone, PartialEq, Eq, Structural, Hash, Debug)]
pub struct OptOptionsU(u8);

impl OptOptionsU {
    #[verifier::type_invariant]
    spec fn defined(self) -> bool {
        self.0 <= 1
    }

    /// The numeric code of this value.
    pub closed spec fn code(self) -> u8 {
        self.0
    }

    /// The largest defined code.
    pub open spec fn max_code() -> u8 {
        1
    }

    /// The short name of a code.
    pub open spec fn name_of(code: u8) -> &'static str {
        match code {
            0 => "SOME",
            1 => "NONE",
            _ => "",
        }
    }

    /// The description of a code.
    pub open spec fn message_of(code: u8) -> &'static str {
        match code {
            0 => "",
            1 => "",
            _ => "",
        }
    }

    /// The numeric code of this value.
    pub fn raw(&self) -> (r: u8)
        ensures
            r == self.code(),
            r <= Self::max_code(),
    {
        proof {
            use_type_invariant(self);
        }
        self.0
    }

    /// Two values with the same code are the same value, so `from_raw` of `raw()` gives a
    /// value back.
    pub proof fn lemma_code_identifies(a: Self, b: Self)
        ensures
            a.code() == b.code() ==> a == b,
    {
    }

    /// The value with the given code, if the code is defined.
    pub fn from_raw(v: u8) -> (r: Option<Self>)
        ensures
            r matches Some(e) ==> e.code() == v,
            r is None <==> v > Self::max_code(),
    {
        if v <= 1 {
            Some(OptOptionsU(v))
        } else {
            None
        }
    }

    /// The short name of this value.
    pub fn name(&self) -> (r: &'static str)
        ensures
            r == Self::name_of(self.code()),
    {
        proof {
            use_type_invariant(self);
        }
        match self.0 {
            0 => "SOME",
            1 => "NONE",
            _ => "",
        }
    }

    /// The description of this value.
    pub fn message(&self) -> (r: &'static str)
        ensures
            r == Self::message_of(self.code()),
    {
        proof {
            use_type_invariant(self);
        }
        match self.0 {
            0 => "",
            1 => "",
            _ => "",
        }
    }

}

/// Tag telling whether an optional symmetric key handle is present.
///
/// The defined codes run from 0 to 1:
/// * 0 (`OPT_SYMMETRIC_KEY_U_SOME`)
/// * 1 (`OPT_SYMMETRIC_KEY_U_NONE`)
#[derive(Copy, Clone, PartialEq, Eq, Structural, Hash, Debug)]
pub struct OptSymmetricKeyU(u8);

impl OptSymmetricKeyU {
    #[verifier::type_invariant]
    spec fn defined(self) -> bool {
        self.0 <= 1
    }

    /// The numeric code of this value.
    pub closed spec fn code(self) -> u8 {
        self.0
    }

    /// The largest defined code.
    pub open spec fn max_code() -> u8 {
        1
    }

    /// The short name of a code.
    pub open spec fn name_of(code: u8) -> &'static str {
        match code {
            0 => "SOME",
            1 => "NONE",
            _ => "",
        }
    }

    /// The description of a code.
    pub open spec fn message_of(code: u8) -> &'static str {
        match code {
            0 => "",
            1 => "",
            _ => "",
        }
    }

    /// The numeric code of this value.
    pub fn raw(&self) -> (r: u8)
        ensures
            r == self.code(),
            r <= Self::max_code(),
    {
        proof {
            use_type_invariant(self);
        }
        self.0
    }

    /// Two values with the same code are the same value, so `from_raw` of `raw()` gives a
    /// value back.
    pub proof fn lemma_code_identifies(a: Self, b: Self)
        ensures
            a.code() == b.code() ==> a == b,
    {
    }

    /// The value with the given code, if the code is defined.
    pub fn from_raw(v: u8) -> (r: Option<Self>)
        ensures
            r matches Some(e) ==> e.code() == v,
            r is None <==> v > Self::max_code(),
    {
        if v <= 1 {
            Some(OptSymmetricKeyU(v))
        } else {
            None
        }
    }

    /// The short name of this value.
    pub fn name(&self) -> (r: &'static str)
        ensures
            r == Self::name_of(self.code()),
    {
        proof {
            use_type_invariant(self);
        }
        match self.0 {
            0 => "SOME",
            1 => "NONE",
            _ => "",
        }
    }

    /// The description of this value.
    pub fn message(&self) -> (r: &'static str)
        ensures
            r == Self::message_of(self.code()),
    {
        proof {
            use_type_invariant(self);
        }
        match self.0 {
            0 => "",
            1 => "",
            _ => "",
        }
    }

}

/// A handle to a set of options.
pub type Options = u32;
/// A handle to a symmetric key.
pub type SymmetricKey = u32;
/// A handle to the state of a symmetric operation.
pub type SymmetricState = u32;

/// The payload of an optional options handle.
#[derive(Copy)]
pub union OptOptionsUnion {
    pub none: (),
    pub some: Options,
}

/// An optional options handle: `tag` is the code of an `OptOptionsU`.
#[derive(Copy, Clone)]
pub struct OptOptions {
    pub tag: u8,
    pub u: OptOptionsUnion,
}

/// The payload of an optional symmetric key handle.
#[derive(Copy)]
pub union OptSymmetricKeyUnion {
    pub none: (),
    pub some: SymmetricKey,
}

/// An optional symmetric key handle: `tag` is the code of an `OptSymmetricKeyU`.
#[derive(Copy, Clone)]
pub struct OptSymmetricKey {
    pub tag: u8,
    pub u: OptSymmetricKeyUnion,
}

impl Clone for OptOptionsUnion {
    fn clone(&self) -> (r: Self)
        ensures
            r == *self,
    {
        *self
    }
}
impl Clone for OptSymmetricKeyUnion {
    fn clone(&self) -> (r: Self)
        ensures
            r == *self,
    {
        *self
    }
}
/// A version of a key or secret.
pub type Version = u64;
/// The version left unspecified.
pub const VERSION_UNSPECIFIED: Version = 18374686479671623680;
/// The latest version.
pub const VERSION_LATEST: Version = 18374686479671623681;
/// All versions.
pub const VERSION_ALL: Version = 18374686479671623682;
/// A size.
pub type Size = usize;
/// A point in time.
pub type Timestamp = u64;
/// A 64-bit value.
pub type U64 = u64;
/// A handle to an output array.
pub type ArrayOutput = u32;
/// A handle to a secrets manager.
pub type SecretsManager = u32;
/// A handle to a key pair.
pub type Keypair = u32;
/// A handle to a signature state.
pub type SignatureState = u32;
/// A handle to a signature.
pub type Signature = u32;
/// A handle to a public key.
pub type Publickey = u32;
/// A handle to a secret key.
pub type Secretkey = u32;
/// A handle to a signature verification state.
pub type SignatureVerificationState = u32;
/// A handle to an authentication tag.
pub type SymmetricTag = u32;
/// A key pair used for signatures.
pub type SignatureKeypair = Keypair;
/// A public key used for signatures.
pub type SignaturePublickey = Publickey;
/// A secret key used for signatures.
pub type SignatureSecretkey = Secretkey;
/// A key pair used for key exchange.
pub type KxKeypair = Keypair;
/// A public key used for key exchange.
pub type KxPublickey = Publickey;
/// A secret key used for key exchange.
pub type KxSecretkey = Secretkey;

/// The `CryptoErrno` with code 0.
#[allow(non_snake_case)]
pub fn CRYPTO_ERRNO_SUCCESS() -> (r: CryptoErrno)
    ensures
        r.code() == 0,
{
    CryptoErrno(0)
}

/// The `CryptoErrno` with code 1.
#[allow(non_snake_case)]
pub fn CRYPTO_ERRNO_GUEST_ERROR() -> (r: CryptoErrno)
    ensures
        r.code() == 1,
{
    CryptoErrno(1)
}

/// The `CryptoErrno` with code 2.
#[allow(non_snake_case)]
pub fn CRYPTO_ERRNO_NOT_IMPLEMENTED() -> (r: CryptoErrno)
    ensures
        r.code() == 2,
{
    CryptoErrno(2)
}

/// The `CryptoErrno` with code 3.
#[allow(non_snake_case)]
pub fn CRYPTO_ERRNO_UNSUPPORTED_FEATURE() -> (r: CryptoErrno)
    ensures
        r.code() == 3,
{
    CryptoErrno(3)
}

/// The `CryptoErrno` with code 4.
#[allow(non_snake_case)]
pub fn CRYPTO_ERRNO_PROHIBITED_OPERATION() -> (r: CryptoErrno)
    ensures
        r.code() == 4,
{
    CryptoErrno(4)
}

/// The `CryptoErrno` with code 5.
#[allow(non_snake_case)]
pub fn CRYPTO_ERRNO_UNSUPPORTED_ENCODING() -> (r: CryptoErrno)
    ensures
        r.code() == 5,
{
    CryptoErrno(5)
}

/// The `CryptoErrno` with code 6.
#[allow(non_snake_case)]
pub fn CRYPTO_ERRNO_UNSUPPORTED_ALGORITHM() -> (r: CryptoErrno)
    ensures
        r.code() == 6,
{
    CryptoErrno(6)
}

/// The `CryptoErrno` with code 7.
#[allow(non_snake_case)]
pub fn CRYPTO_ERRNO_UNSUPPORTED_OPTION() -> (r: CryptoErrno)
    ensures
        r.code() == 7,
{
    CryptoErrno(7)
}

/// The `CryptoErrno` with code 8.
#[allow(non_snake_case)]
pub fn CRYPTO_ERRNO_INVALID_KEY() -> (r: CryptoErrno)
    ensures
        r.code() == 8,
{
    CryptoErrno(8)
}

/// The `CryptoErrno` with code 9.
#[allow(non_snake_case)]
pub fn CRYPTO_ERRNO_INVALID_LENGTH() -> (r: CryptoErrno)
    ensures
        r.code() == 9,
{
    CryptoErrno(9)
}

/// The `CryptoErrno` with code 10.
#[allow(non_snake_case)]
pub fn CRYPTO_ERRNO_VERIFICATION_FAILED() -> (r: CryptoErrno)
    ensures
        r.code() == 10,
{
    CryptoErrno(10)
}

/// The `CryptoErrno` with code 11.
#[allow(non_snake_case)]
pub fn CRYPTO_ERRNO_RNG_ERROR() -> (r: CryptoErrno)
    ensures
        r.code() == 11,
{
    CryptoErrno(11)
}

/// The `CryptoErrno` with code 12.
#[allow(non_snake_case)]
pub fn CRYPTO_ERRNO_ALGORITHM_FAILURE() -> (r: CryptoErrno)
    ensures
        r.code() == 12,
{
    CryptoErrno(12)
}

/// The `CryptoErrno` with code 13.
#[allow(non_snake_case)]
pub fn CRYPTO_ERRNO_INVALID_SIGNATURE() -> (r: CryptoErrno)
    ensures
        r.code() == 13,
{
    CryptoErrno(13)
}

/// The `CryptoErrno` with code 14.
#[allow(non_snake_case)]
pub fn CRYPTO_ERRNO_CLOSED() -> (r: CryptoErrno)
    ensures
        r.code() == 14,
{
    CryptoErrno(14)
}

/// The `CryptoErrno` with code 15.
#[allow(non_snake_case)]
pub fn CRYPTO_ERRNO_INVALID_HANDLE() -> (r: CryptoErrno)
    ensures
        r.code() == 15,
{
    CryptoErrno(15)
}

/// The `CryptoErrno` with code 16.
#[allow(non_snake_case)]
pub fn CRYPTO_ERRNO_OVERFLOW() -> (r: CryptoErrno)
    ensures
        r.code() == 16,
{
    CryptoErrno(16)
}

/// The `CryptoErrno` with code 17.
#[allow(non_snake_case)]
pub fn CRYPTO_ERRNO_INTERNAL_ERROR() -> (r: CryptoErrno)
    ensures
        r.code() == 17,
{
    CryptoErrno(17)
}

/// The `CryptoErrno` with code 18.
#[allow(non_snake_case)]
pub fn CRYPTO_ERRNO_TOO_MANY_HANDLES() -> (r: CryptoErrno)
    ensures
        r.code() == 18,
{
    CryptoErrno(18)
}

/// The `CryptoErrno` with code 19.
#[allow(non_snake_case)]
pub fn CRYPTO_ERRNO_KEY_NOT_SUPPORTED() -> (r: CryptoErrno)
    ensures
        r.code() == 19,
{
    CryptoErrno(19)
}

/// The `CryptoErrno` with code 20.
#[allow(non_snake_case)]
pub fn CRYPTO_ERRNO_KEY_REQUIRED() -> (r: CryptoErrno)
    ensures
        r.code() == 20,
{
    CryptoErrno(20)
}

/// The `CryptoErrno` with code 21.
#[allow(non_snake_case)]
pub fn CRYPTO_ERRNO_INVALID_TAG() -> (r: CryptoErrno)
    ensures
        r.code() == 21,
{
    CryptoErrno(21)
}

/// The `CryptoErrno` with code 22.
#[allow(non_snake_case)]
pub fn CRYPTO_ERRNO_INVALID_OPERATION() -> (r: CryptoErrno)
    ensures
        r.code() == 22,
{
    CryptoErrno(22)
}

/// The `CryptoErrno` with code 23.
#[allow(non_snake_case)]
pub fn CRYPTO_ERRNO_NONCE_REQUIRED() -> (r: CryptoErrno)
    ensures
        r.code() == 23,
{
    CryptoErrno(23)
}

/// The `CryptoErrno` with code 24.
#[allow(non_snake_case)]
pub fn CRYPTO_ERRNO_INVALID_NONCE() -> (r: CryptoErrno)
    ensures
        r.code() == 24,
{
    CryptoErrno(24)
}

/// The `CryptoErrno` with code 25.
#[allow(non_snake_case)]
pub fn CRYPTO_ERRNO_OPTION_NOT_SET() -> (r: CryptoErrno)
    ensures
        r.code() == 25,
{
    CryptoErrno(25)
}

/// The `CryptoErrno` with code 26.
#[allow(non_snake_case)]
pub fn CRYPTO_ERRNO_NOT_FOUND() -> (r: CryptoErrno)
    ensures
        r.code() == 26,
{
    CryptoErrno(26)
}

/// The `CryptoErrno` with code 27.
#[allow(non_snake_case)]
pub fn CRYPTO_ERRNO_PARAMETERS_MISSING() -> (r: CryptoErrno)
    ensures
        r.code() == 27,
{
    CryptoErrno(27)
}

/// The `CryptoErrno` with code 28.
#[allow(non_snake_case)]
pub fn CRYPTO_ERRNO_IN_PROGRESS() -> (r: CryptoErrno)
    ensures
        r.code() == 28,
{
    CryptoErrno(28)
}

/// The `CryptoErrno` with code 29.
#[allow(non_snake_case)]
pub fn CRYPTO_ERRNO_INCOMPATIBLE_KEYS() -> (r: CryptoErrno)
    ensures
        r.code() == 29,
{
    CryptoErrno(29)
}

/// The `CryptoErrno` with code 30.
#[allow(non_snake_case)]
pub fn CRYPTO_ERRNO_EXPIRED() -> (r: CryptoErrno)
    ensures
        r.code() == 30,
{
    CryptoErrno(30)
}

/// The `KeypairEncoding` with code 0.
#[allow(non_snake_case)]
pub fn KEYPAIR_ENCODING_RAW() -> (r: KeypairEncoding)
    ensures
        r.code() == 0,
{
    KeypairEncoding(0)
}

/// The `KeypairEncoding` with code 1.
#[allow(non_snake_case)]
pub fn KEYPAIR_ENCODING_PKCS8() -> (r: KeypairEncoding)
    ensures
        r.code() == 1,
{
    KeypairEncoding(1)
}

/// The `KeypairEncoding` with code 2.
#[allow(non_snake_case)]
pub fn KEYPAIR_ENCODING_PEM() -> (r: KeypairEncoding)
    ensures
        r.code() == 2,
{
    KeypairEncoding(2)
}

/// The `KeypairEncoding` with code 3.
#[allow(non_snake_case)]
pub fn KEYPAIR_ENCODING_LOCAL() -> (r: KeypairEncoding)
    ensures
        r.code() == 3,
{
    KeypairEncoding(3)
}

/// The `PublickeyEncoding` with code 0.
#[allow(non_snake_case)]
pub fn PUBLICKEY_ENCODING_RAW() -> (r: PublickeyEncoding)
    ensures
        r.code() == 0,
{
    PublickeyEncoding(0)
}

/// The `PublickeyEncoding` with code 1.
#[allow(non_snake_case)]
pub fn PUBLICKEY_ENCODING_PKCS8() -> (r: PublickeyEncoding)
    ensures
        r.code() == 1,
{
    PublickeyEncoding(1)
}

/// The `PublickeyEncoding` with code 2.
#[allow(non_snake_case)]
pub fn PUBLICKEY_ENCODING_PEM() -> (r: PublickeyEncoding)
    ensures
        r.code() == 2,
{
    PublickeyEncoding(2)
}

/// The `PublickeyEncoding` with code 3.
#[allow(non_snake_case)]
pub fn PUBLICKEY_ENCODING_SEC() -> (r: PublickeyEncoding)
    ensures
        r.code() == 3,
{
    PublickeyEncoding(3)
}

/// The `PublickeyEncoding` with code 4.
#[allow(non_snake_case)]
pub fn PUBLICKEY_ENCODING_LOCAL() -> (r: PublickeyEncoding)
    ensures
        r.code() == 4,
{
    PublickeyEncoding(4)
}

/// The `SecretkeyEncoding` with code 0.
#[allow(non_snake_case)]
pub fn SECRETKEY_ENCODING_RAW() -> (r: SecretkeyEncoding)
    ensures
        r.code() == 0,
{
    SecretkeyEncoding(0)
}

/// The `SecretkeyEncoding` with code 1.
#[allow(non_snake_case)]
pub fn SECRETKEY_ENCODING_PKCS8() -> (r: SecretkeyEncoding)
    ensures
        r.code() == 1,
{
    SecretkeyEncoding(1)
}

/// The `SecretkeyEncoding` with code 2.
#[allow(non_snake_case)]
pub fn SECRETKEY_ENCODING_PEM() -> (r: SecretkeyEncoding)
    ensures
        r.code() == 2,
{
    SecretkeyEncoding(2)
}

/// The `SecretkeyEncoding` with code 3.
#[allow(non_snake_case)]
pub fn SECRETKEY_ENCODING_SEC() -> (r: SecretkeyEncoding)
    ensures
        r.code() == 3,
{
    SecretkeyEncoding(3)
}

/// The `SecretkeyEncoding` with code 4.
#[allow(non_snake_case)]
pub fn SECRETKEY_ENCODING_LOCAL() -> (r: SecretkeyEncoding)
    ensures
        r.code() == 4,
{
    SecretkeyEncoding(4)
}

/// The `SignatureEncoding` with code 0.
#[allow(non_snake_case)]
pub fn SIGNATURE_ENCODING_RAW() -> (r: SignatureEncoding)
    ensures
        r.code() == 0,
{
    SignatureEncoding(0)
}

/// The `SignatureEncoding` with code 1.
#[allow(non_snake_case)]
pub fn SIGNATURE_ENCODING_DER() -> (r: SignatureEncoding)
    ensures
        r.code() == 1,
{
    SignatureEncoding(1)
}

/// The `AlgorithmType` with code 0.
#[allow(non_snake_case)]
pub fn ALGORITHM_TYPE_SIGNATURES() -> (r: AlgorithmType)
    ensures
        r.code() == 0,
{
    AlgorithmType(0)
}

/// The `AlgorithmType` with code 1.
#[allow(non_snake_case)]
pub fn ALGORITHM_TYPE_SYMMETRIC() -> (r: AlgorithmType)
    ensures
        r.code() == 1,
{
    AlgorithmType(1)
}

/// The `AlgorithmType` with code 2.
#[allow(non_snake_case)]
pub fn ALGORITHM_TYPE_KEY_EXCHANGE() -> (r: AlgorithmType)
    ensures
        r.code() == 2,
{
    AlgorithmType(2)
}

/// The `OptOptionsU` with code 0.
#[allow(non_snake_case)]
pub fn OPT_OPTIONS_U_SOME() -> (r: OptOptionsU)
    ensures
        r.code() == 0,
{
    OptOptionsU(0)
}

/// The `OptOptionsU` with code 1.
#[allow(non_snake_case)]
pub fn OPT_OPTIONS_U_NONE() -> (r: OptOptionsU)
    ensures
        r.code() == 1,
{
    OptOptionsU(1)
}

/// The `OptSymmetricKeyU` with code 0.
#[allow(non_snake_case)]
pub fn OPT_SYMMETRIC_KEY_U_SOME() -> (r: OptSymmetricKeyU)
    ensures
        r.code() == 0,
{
    OptSymmetricKeyU(0)
}

/// The `OptSymmetricKeyU` with code 1.
#[allow(non_snake_case)]
pub fn OPT_SYMMETRIC_KEY_U_NONE() -> (r: OptSymmetricKeyU)
    ensures
        r.code() == 1,
{
    OptSymmetricKeyU(1)
}

} // verus!
