use ssb_patchql::db::{decode_key_or_zero, secret_key_bytes, to_sqlite_uri};
use ssb_patchql::text::{concat4, first_char_is, trim_end_matches};

#[test]
fn sqlite_uri() {
    assert_eq!(to_sqlite_uri("/tmp/db.sqlite", "rwc"), "file:/tmp/db.sqlite?mode=rwc");
    assert_eq!(to_sqlite_uri("", "ro"), "file:?mode=ro");
}

#[test]
fn secret_key_trims_suffix() {
    assert_eq!(secret_key_bytes("aGVsbG8=.ed25519"), b"hello".to_vec());
    assert_eq!(secret_key_bytes("aGVsbG8="), b"hello".to_vec());
}

#[test]
fn secret_key_invalid_is_zero_byte() {
    assert_eq!(secret_key_bytes("not base64!.ed25519"), vec![0u8]);
    assert_eq!(decode_key_or_zero("%%%"), vec![0u8]);
    assert_eq!(decode_key_or_zero(""), Vec::<u8>::new());
}

#[test]
fn trimming() {
    assert_eq!(trim_end_matches("a.box.box", ".box"), "a");
    assert_eq!(trim_end_matches(".box", ".box"), "");
    assert_eq!(trim_end_matches("abc", ".box"), "abc");
    assert_eq!(trim_end_matches("héllo.bøx.bøx", ".bøx"), "héllo");
    assert_eq!(trim_end_matches("abc", ""), "abc");
}

#[test]
fn small_text_helpers() {
    assert_eq!(concat4("a", "b", "", "d"), "abd");
    assert!(first_char_is("@x", '@'));
    assert!(!first_char_is("", '@'));
    assert!(first_char_is("é", 'é'));
}
