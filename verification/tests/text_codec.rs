use wasmedge_quickjs::text_codec::{encode_utf8_raw, text_decode, text_encode, text_encode_into};

#[test]
fn encode_is_utf8() {
    assert_eq!(Some("héllo €😀".as_bytes().to_vec()), text_encode("héllo €😀", ""));
    assert_eq!(Some(b"abc".to_vec()), text_encode("abc", "utf8"));
    assert_eq!(Some(b"abc".to_vec()), text_encode("abc", "utf-8"));
    assert_eq!(None, text_encode("abc", "latin1"));
}

#[test]
fn raw_char_encoding() {
    let mut buf = [0u8; 4];
    assert_eq!(Some(1), encode_utf8_raw('a', &mut buf));
    assert_eq!(b'a', buf[0]);
    assert_eq!(Some(2), encode_utf8_raw('é', &mut buf));
    assert_eq!(&buf[..2], "é".as_bytes());
    assert_eq!(Some(3), encode_utf8_raw('€', &mut buf));
    assert_eq!(&buf[..3], "€".as_bytes());
    assert_eq!(Some(4), encode_utf8_raw('😀', &mut buf));
    assert_eq!(&buf[..], "😀".as_bytes());
    let mut small = [7u8; 2];
    assert_eq!(None, encode_utf8_raw('€', &mut small));
    assert_eq!([7u8, 7u8], small);
}

#[test]
fn encode_into_stops_at_first_char_that_does_not_fit() {
    let mut buf = [0u8; 6];
    let r = text_encode_into("a€b", "utf-8", &mut buf, 1).unwrap();
    assert_eq!(3, r.read);
    assert_eq!(5, r.written);
    assert_eq!([0, b'a', 0xe2, 0x82, 0xac, b'b'], buf);

    let mut buf = [9u8; 4];
    let r = text_encode_into("ab€c", "", &mut buf, 1).unwrap();
    assert_eq!(2, r.read);
    assert_eq!(2, r.written);
    assert_eq!([9, b'a', b'b', 9], buf);

    let mut buf = [9u8; 2];
    let r = text_encode_into("abc", "utf8", &mut buf, 10).unwrap();
    assert_eq!(0, r.read);
    assert_eq!(0, r.written);
    assert_eq!([9, 9], buf);

    let mut buf = [9u8; 2];
    assert!(text_encode_into("abc", "ascii", &mut buf, 0).is_none());
    assert_eq!([9, 9], buf);
}

#[test]
fn decode_by_label() {
    assert_eq!(Some(Ok("héllo".to_string())), text_decode("héllo".as_bytes(), "", false));
    assert_eq!(Some(Ok("\u{fffd}".to_string())), text_decode(&[0xff], "utf-8", false));
    assert!(matches!(text_decode(&[0xff], "utf-8", true), Some(Err(_))));
    assert_eq!(Some(Ok("中".to_string())), text_decode(&[0xd6, 0xd0], "gbk", false));
    assert_eq!(Some(Ok("A".to_string())), text_decode(&[0x00, 0x41], "utf-16be", false));
    assert_eq!(Some(Ok("A".to_string())), text_decode(&[0x41, 0x00], "utf-16le", false));
    assert_eq!(Some(Ok("é".to_string())), text_decode(&[0xe9], "windows-1252", false));
    assert_eq!(Some(Ok("ש".to_string())), text_decode(&[0xf9], "iso-8859-8i", false));
    assert_eq!(Some(Ok("ab".to_string())), text_decode(b"ab", "hz-gb-2312", false));
    assert_eq!(None, text_decode(b"ab", "koi8-r", false));
}

#[test]
fn encode_then_decode_gives_text_back() {
    for s in ["", "plain", "héllo €😀", "中文"] {
        let bytes = text_encode(s, "utf-8").unwrap();
        assert_eq!(Some(Ok(s.to_string())), text_decode(&bytes, "utf8", true));
    }
}
