use fixed_buffer::{deframe_crlf, deframe_line, deframe_null};

#[test]
fn deframe_crlf_test_dataframe_crlf() {
    assert_eq!(None, deframe_crlf(b"").unwrap());
    assert_eq!(None, deframe_crlf(b"abc").unwrap());
    assert_eq!(None, deframe_crlf(b"abc\r").unwrap());
    assert_eq!(None, deframe_crlf(b"abc\n").unwrap());
    assert_eq!(Some((0..0, 2)), deframe_crlf(b"\r\n").unwrap());
    assert_eq!(Some((0..3, 5)), deframe_crlf(b"abc\r\n").unwrap());
    assert_eq!(Some((0..3, 5)), deframe_crlf(b"abc\r\ndef").unwrap());
    assert_eq!(Some((0..3, 5)), deframe_crlf(b"abc\r\ndef\r\n").unwrap());
    assert_eq!(Some((0..4, 6)), deframe_crlf(b"abc\n\r\n").unwrap());
}

#[test]
fn deframe_line_test_dataframe_crlf() {
    assert_eq!(None, deframe_line(b"").unwrap());
    assert_eq!(None, deframe_line(b"abc").unwrap());
    assert_eq!(None, deframe_line(b"abc\r").unwrap());
    assert_eq!(Some((0..0, 1)), deframe_line(b"\n").unwrap());
    assert_eq!(Some((0..0, 2)), deframe_line(b"\r\n").unwrap());
    assert_eq!(Some((0..3, 4)), deframe_line(b"abc\n").unwrap());
    assert_eq!(Some((0..3, 5)), deframe_line(b"abc\r\n").unwrap());
    assert_eq!(Some((0..3, 4)), deframe_line(b"abc\ndef").unwrap());
    assert_eq!(Some((0..3, 5)), deframe_line(b"abc\r\ndef").unwrap());
    assert_eq!(Some((0..3, 4)), deframe_line(b"abc\ndef\n").unwrap());
    assert_eq!(Some((0..3, 5)), deframe_line(b"abc\r\ndef\r\n").unwrap());
    assert_eq!(Some((0..4, 6)), deframe_line(b"abc\r\r\n").unwrap());
}

#[test]
fn test_dataframe_null() {
    assert_eq!(None, deframe_null(b"").unwrap());
    assert_eq!(None, deframe_null(b"abc").unwrap());
    assert_eq!(None, deframe_null(b"abc\r").unwrap());
    assert_eq!(None, deframe_null(b"abc\r\n").unwrap());
    assert_eq!(None, deframe_null(b"abc\n").unwrap());
    assert_eq!(Some((0..0, 1)), deframe_null(b"\0").unwrap());
    assert_eq!(Some((0..3, 4)), deframe_null(b"abc\0").unwrap());
    assert_eq!(Some((0..3, 4)), deframe_null(b"abc\0def").unwrap());
    assert_eq!(Some((0..3, 4)), deframe_null(b"abc\0def\0").unwrap());
    assert_eq!(Some((0..4, 5)), deframe_null(b"abc\r\0").unwrap());
    assert_eq!(Some((0..5, 6)), deframe_null(b"abc\r\n\0").unwrap());
}

#[test]
fn deframe_crlf_doc_examples() {
    assert!(deframe_crlf(b"").unwrap().is_none());
    assert!(deframe_crlf(b"abc\r").unwrap().is_none());
    assert_eq!(Some((0..3, 5)), deframe_crlf(b"abc\r\nX").unwrap());
}

#[test]
fn deframe_line_solitary_cr_is_content() {
    // A `\r` that is not just before the `\n` stays in the contents.
    assert_eq!(Some((0..3, 4)), deframe_line(b"a\rb\n").unwrap());
    assert_eq!(Some((0..1, 3)), deframe_line(b"\r\r\n").unwrap());
}

#[test]
fn deframe_null_ignores_line_endings() {
    assert_eq!(Some((0..2, 3)), deframe_null(b"\n\r\0\n").unwrap());
}

#[test]
fn deframe_results_lie_within_data() {
    for data in [&b"x\r\ny"[..], &b"\r\n"[..], &b"\n"[..], &b"ab\0"[..]] {
        for found in [
            deframe_crlf(data).unwrap(),
            deframe_line(data).unwrap(),
            deframe_null(data).unwrap(),
        ] {
            if let Some((range, block_len)) = found {
                assert!(range.start <= range.end);
                assert!(range.end <= block_len);
                assert!(block_len <= data.len());
            }
        }
    }
}
