use ssb_patchql::cursor::{decode_cursor, encode_cursor};

const SHORT: &str = "Error decoding cursor. Is it a valid base64 encoded i64?";

#[test]
fn encode_cursor_zero() {
    assert_eq!(encode_cursor(0), "AAAAAAAAAAA=");
}

#[test]
fn encode_cursor_one_is_little_endian() {
    assert_eq!(encode_cursor(1), "AQAAAAAAAAA=");
    assert_eq!(encode_cursor(256), "AAEAAAAAAAA=");
}

#[test]
fn encode_cursor_negative_one() {
    assert_eq!(encode_cursor(-1), "//////////8=");
}

#[test]
fn cursor_roundtrip() {
    for v in [0i64, 1, -1, 42, 1234567, i64::MAX, i64::MIN, -987654321] {
        assert_eq!(decode_cursor(&encode_cursor(v)), Ok(v));
    }
}

#[test]
fn decode_cursor_too_short() {
    assert_eq!(decode_cursor("AAAA"), Err(SHORT.to_string()));
    assert_eq!(decode_cursor(""), Err(SHORT.to_string()));
}

#[test]
fn decode_cursor_invalid_base64() {
    let err = decode_cursor("!!!!").unwrap_err();
    assert_eq!(err, "Invalid byte 33, offset 0.");
    assert!(decode_cursor("A").is_err());
}

#[test]
fn decode_cursor_reads_first_eight_bytes() {
    // twelve bytes: 2, then eleven zeros
    assert_eq!(decode_cursor("AgAAAAAAAAAAAAAA"), Ok(2));
}

#[test]
fn encode_cursor_is_twelve_base64_characters() {
    for v in [0i64, 1, 255, 65_536, i64::MAX, i64::MIN, -1, 123_456_789] {
        let s = encode_cursor(v);
        assert_eq!(s.len(), 12);
        assert!(s.ends_with('='));
        assert!(s[..11].chars().all(|c| c.is_ascii_alphanumeric() || c == '+' || c == '/'));
    }
}
