use wasmedge_quickjs::bytes::{hex_to_u8array, timing_safe_equal, u8array_to_hex};
use wasmedge_quickjs::crypto_raw::CryptoErrno;
use wasmedge_quickjs::salsa::{blockmix_block, salsa20_8_block, scrypt_rom, xor_block};

fn hex(s: &str) -> Vec<u8> {
    hex_to_u8array(s).unwrap()
}

#[test]
fn hex_of_bytes() {
    assert_eq!(u8array_to_hex(&[1, 23, 45]), "01172d".to_string());
    assert_eq!(u8array_to_hex(&[]), "".to_string());
    assert_eq!(u8array_to_hex(&[0xff, 0x00, 0xab]), "ff00ab".to_string());
}

#[test]
fn bytes_of_hex() {
    assert_eq!(hex_to_u8array("01172d"), Some(vec![1, 23, 45]));
    assert_eq!(hex_to_u8array("FFab"), Some(vec![0xff, 0xab]));
    assert_eq!(hex_to_u8array(""), Some(vec![]));
    assert_eq!(hex_to_u8array("abc"), None);
    assert_eq!(hex_to_u8array("zz"), None);
    assert_eq!(hex_to_u8array("é1"), None);
}

#[test]
fn hex_roundtrip() {
    let data: Vec<u8> = (0..=255).collect();
    assert_eq!(hex_to_u8array(&u8array_to_hex(&data)), Some(data));
}

#[test]
fn salsa20_8_core_vector() {
    let input = hex("7e879a214f3ec9867ca940e641718f26baee555b8c61c1b50df846116dcd3b1dee24f319df9b3d8514121e4b5ac5aa3276021d2909c74829edebc68db8b8c25e");
    let expected = hex("a41f859c6608cc993b81cacb020cef05044b2181a2fd337dfd7b1c6396682f29b4393168e3c9e6bcfe6bc5b7a06d96bae424cc102c91745c24ad673dc7618f81");
    assert_eq!(salsa20_8_block(&input), expected);
}

#[test]
fn blockmix_of_counting_bytes() {
    let input: Vec<u8> = (0..128).map(|i| i as u8).collect();
    assert_eq!(blockmix_block(&input, 1), hex("6cb2215ae0feecea4f8223b8371a931c371a931c6cb2215ae0feecea4f8223b84f8223b8371a931c6cb2215ae0feeceae0feecea4f8223b8371a931c6cb2215aeff83bd71972b81ae62ff52785baadfdb204d4a20bfb1bebf1cf1c8ea2c404a9ab2945a5b300d6a3bc9f2b916bc4af3d2e74f81e88ce886f43d1cda38feddc0e"));
}

#[test]
fn romix_of_stretched_empty_password() {
    let b = hex("f7ce0b653d2d72a4108cf5abe912ffdd777616dbbb27a70e8204f3ae2d0f6fad89f68f4811d1e87bcc3bd7400a9ffd29094f0184639574f39ae5a1315217bcd7894991447213bb226c25b54da86370fbcd984380374666bb8ffcb5bf40c254b067d27c51ce4ad5fed829c90b505a571b7f4d1cad6a523cda770e67bceaaf7e89");
    assert_eq!(scrypt_rom(&b, 1, 16, 1), hex("79ccc193629debca047f0b70604bf6b62ce3dd4a9626e355fafc6198e6ea2b46d58413673b99b029d665c357601fb426a0b2f4bba200ee9f0a43d19b571a9c71ef1142e65d5a266fddca832ce59faa7cac0b9cf1be2bffca300d01ee387619c4ae12fd4438f203a0e4e1c47ec314861f4e9087cb33396a6873e8f9d2539a4b8e"));
}

#[test]
fn xor_of_blocks() {
    assert_eq!(xor_block(&[1, 2, 3], &[3, 2, 1, 9]), vec![2, 0, 2]);
}

#[test]
fn timing_safe_compare() {
    assert!(timing_safe_equal(b"abc", b"abc"));
    assert!(timing_safe_equal(b"abc", b"abcd"));
    assert!(!timing_safe_equal(b"abc", b"abd"));
    assert!(timing_safe_equal(b"", b"x"));
}


#[test]
fn crypto_error_codes() {
    let e = CryptoErrno::from_raw(6).unwrap();
    assert_eq!("UNSUPPORTED_ALGORITHM", e.name());
    assert_eq!("The requested algorithm is not supported by the host.", e.message());
    assert_eq!(6, e.raw());
    assert_eq!(17, CryptoErrno::from_host(999).raw());
    assert_eq!(12, CryptoErrno::from_host(12).raw());
    assert!(CryptoErrno::from_raw(31).is_none());
}

#[test]
fn hex_parsed_then_printed_is_lower_case() {
    let v = hex_to_u8array("00aBcDeF7f").unwrap();
    assert_eq!(vec![0x00, 0xab, 0xcd, 0xef, 0x7f], v);
    assert_eq!("00abcdef7f", u8array_to_hex(&v));
}
