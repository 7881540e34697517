use ssb_patchql::db::keypair_bytes;
use ssb_patchql::db::models::decryption::{
    attempt_decryption, checked_decryption, open_with_first_key, Decryption, DecryptionError, Opening,
};
use ssb_patchql::json::JsonValue;

// A message boxed for two recipients by the JavaScript implementation of
// private-box, with both recipients' secret keys.
const CIPHERTEXT: &str = "cqkYGhWOhXQcsKNbLoz5H33ikpsy+7PqWJ9pHm+7QUysbfx44G4Q9oIlJ8ccQisO3t7dE7CgrQCvJ/ALrm8/xRCZyNrbXKzUkD7OxEimNsBNaEyvpm3Anc1puSq2BkPL0ngsOAc4xAS4WhGHtDTqP+PHdA18QbE+/dDBmp494ABW4LbEny8JnemXZdsrwDobSknnQteFsvyo+PekIsgj/C5ilFQrRsMyhQLUGIYQpE5A9M2HIvXI2ez5Lf7i8Kt6FKxHmsElM14O3svhRGFLHw2CHkH5gw4NN6Jlto4KjMy5Qqw7D8FKlvDE/PZF";
const PLAINTEXT: &str = "this is generated by test-case-creator/index.js (function simple())";
const ALICE: &str = "C5R339Cz8dXp14QLVGw19od9sBnKqydwFf8der55Q5V75M/X43Q7O2SlBR+ostRJzGNF5CzbNLsr9AfRL7nSaA==.ed25519";
const BOB: &str = "9VrIuqv+lQcTeCsZZqHSE2CoqMLLbqx+vMDneIKUWzgOZ3LsP6aFEwtOXQkF1p2q0Cc+LXj2xCZ7U/+qMgTI5w==";

fn boxed(text: &str) -> JsonValue {
    JsonValue::String(format!("{}.box", text))
}

fn stranger() -> Vec<u8> {
    keypair_bytes("not a key")
}

#[test]
fn each_recipient_opens_the_message() {
    for secret in [ALICE, BOB] {
        let keys = vec![keypair_bytes(secret)];
        match attempt_decryption(&boxed(CIPHERTEXT), &keys) {
            Decryption::Opened(p) => assert_eq!(p, PLAINTEXT.as_bytes().to_vec()),
            other => panic!("expected the plaintext, got {:?}", other),
        }
    }
}

#[test]
fn the_first_key_that_opens_wins() {
    let keys = vec![stranger(), keypair_bytes(BOB)];
    assert!(matches!(attempt_decryption(&boxed(CIPHERTEXT), &keys), Decryption::Opened(p) if p == PLAINTEXT.as_bytes()));
}

#[test]
fn a_stranger_cannot_open_the_message() {
    let keys = vec![stranger()];
    assert!(matches!(attempt_decryption(&boxed(CIPHERTEXT), &keys), Decryption::Unopened));
    assert!(matches!(attempt_decryption(&boxed(CIPHERTEXT), &Vec::new()), Decryption::Unopened));
}

#[test]
fn public_content_is_left_alone() {
    let content = JsonValue::Object(vec![("type".to_string(), JsonValue::String("post".to_string()))]);
    assert!(matches!(attempt_decryption(&content, &vec![keypair_bytes(ALICE)]), Decryption::Public));
}

#[test]
fn invalid_base64_gives_the_decoder_error() {
    match checked_decryption(&boxed("!!!!"), &vec![keypair_bytes(ALICE)]) {
        Err(DecryptionError::Undecodable(e)) => assert_eq!(e, "Invalid byte 33, offset 0."),
        other => panic!("expected a decoding error, got {:?}", other),
    }
}

#[test]
fn a_ciphertext_shorter_than_its_header_is_malformed() {
    // 12 bytes: far shorter than the 56-byte header.
    let short = boxed("AAAAAAAAAAAAAAAA");
    assert!(matches!(checked_decryption(&short, &vec![keypair_bytes(ALICE)]), Err(DecryptionError::Malformed)));
    // With no key to try, nothing is read.
    assert!(matches!(attempt_decryption(&short, &Vec::new()), Decryption::Unopened));
    assert!(matches!(checked_decryption(&short, &Vec::new()), Ok(Decryption::Unopened)));
}

#[test]
fn a_ciphertext_cut_before_its_body_is_malformed() {
    // Keep the header and both boxed keys, drop the body: the key opens and
    // says there are two recipients, so the body would start past the end.
    let bytes = base64::decode(CIPHERTEXT).unwrap();
    let cut = &bytes[..56 + 49 * 2];
    assert!(matches!(open_with_first_key(cut, &vec![keypair_bytes(ALICE)]), Opening::Malformed));
    let cut_text = base64::encode(cut);
    assert!(matches!(checked_decryption(&boxed(&cut_text), &vec![keypair_bytes(BOB)]), Err(DecryptionError::Malformed)));
}

#[test]
fn keypair_bytes_keeps_a_full_keypair() {
    let expected = base64::decode(&ALICE[..ALICE.len() - ".ed25519".len()]).unwrap();
    assert_eq!(expected.len(), 64);
    assert_eq!(keypair_bytes(ALICE), expected);
}

#[test]
fn keypair_bytes_falls_back_to_zeros() {
    assert_eq!(keypair_bytes("aGVsbG8=.ed25519"), vec![0u8; 64]);
    assert_eq!(keypair_bytes("not base64!"), vec![0u8; 64]);
}

#[test]
fn checked_decryption_reads_what_can_be_read() {
    let keys = vec![keypair_bytes(ALICE)];
    assert!(matches!(checked_decryption(&boxed(CIPHERTEXT), &keys), Ok(Decryption::Opened(p)) if p == PLAINTEXT.as_bytes()));
    let public = JsonValue::Object(vec![("type".to_string(), JsonValue::String("vote".to_string()))]);
    assert!(matches!(checked_decryption(&public, &keys), Ok(Decryption::Public)));
    assert!(matches!(checked_decryption(&boxed(CIPHERTEXT), &vec![stranger()]), Ok(Decryption::Unopened)));
}
