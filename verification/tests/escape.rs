use fixed_buffer::{escape_ascii, FixedBuf};

#[test]
fn escape_ascii_test_escape_ascii() {
    assert_eq!("", FixedBuf::filled(*b"").escape_ascii());
    assert_eq!("abc", FixedBuf::filled(*b"abc").escape_ascii());
    assert_eq!("\\r\\n", FixedBuf::filled(*b"\r\n").escape_ascii());
    let euro: [u8; 3] = "\u{20ac}".as_bytes().try_into().unwrap();
    assert_eq!("\\xe2\\x82\\xac", FixedBuf::filled(euro).escape_ascii());
    assert_eq!("\\x01", FixedBuf::filled(*b"\x01").escape_ascii());
    let buf = FixedBuf::filled(*b"abc");
    assert_eq!("abc", buf.escape_ascii());
    assert_eq!(b"abc", buf.readable());
}

#[test]
fn escape_ascii_special_bytes() {
    assert_eq!("\\t\\r\\n\\'\\\"\\\\", escape_ascii(b"\t\r\n'\"\\"));
    assert_eq!(" ~", escape_ascii(b" ~"));
    assert_eq!("\\x00\\x1f\\x7f\\xff", escape_ascii(&[0x00, 0x1f, 0x7f, 0xff]));
    assert_eq!("\\x0a", escape_ascii(&[0x0a]).replace("\\n", "\\x0a"));
}

#[test]
fn escape_ascii_matches_core_escape_default() {
    for b in 0..=255u8 {
        let expected: String = core::ascii::escape_default(b).map(|c| c as char).collect();
        assert_eq!(expected, escape_ascii(&[b]));
    }
}

#[test]
fn escape_ascii_of_concatenation() {
    let a = b"a\x01";
    let b = b"\nz";
    let joined = [&a[..], &b[..]].concat();
    assert_eq!(escape_ascii(a) + &escape_ascii(b), escape_ascii(&joined));
}

#[test]
fn escape_ascii_keeps_plain_text() {
    let text = "Hello, world 123 ~!";
    assert_eq!(text, escape_ascii(text.as_bytes()));
}
