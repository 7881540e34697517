//! Opening private messages: trying each of our keypairs on a
//! `private-box` ciphertext, the first that opens it winning.

use super::{boxed_ciphertext, boxed_payload, boxed_readable};
use crate::json::JsonValue;
use vstd::prelude::*;

verus! {

/// What `private_box::decrypt_key` recovers from `ciphertext` with the
/// keypair whose 64 bytes are `keypair`: the 33 bytes of the message key
/// (its first byte the recipient count), or nothing.
pub uninterp spec fn box_message_key(ciphertext: Seq<u8>, keypair: Seq<u8>) -> Option<Seq<u8>>;

/// What `private_box::decrypt_body_with_key_bytes` opens of `ciphertext`
/// with the 33-byte message key `message_key`: the plaintext, or nothing.
pub uninterp spec fn box_body(ciphertext: Seq<u8>, message_key: Seq<u8>) -> Option<Seq<u8>>;

/// Calls `private_box::decrypt_key` (private-box 0.6) with the keypair made
/// by `Keypair::from_slice` from the 64 bytes (which always succeeds for 64
/// bytes), and returns the message key as its 33 bytes.
///
/// Trusted: the result is the one named `box_message_key`, and a message key
/// has 33 bytes (`MsgKey::as_array`). `decrypt_key` slices the first 56
/// bytes, which the `requires` guarantees.
#[verifier::external_body]
fn open_message_key(ciphertext: &[u8], keypair: &[u8]) -> (message_key: Option<Vec<u8>>)
    requires
        ciphertext@.len() >= 56,
        keypair@.len() == 64,
    ensures
        match message_key {
            Some(k) => box_message_key(ciphertext@, keypair@) == Some(k@) && k@.len() == 33,
            None => box_message_key(ciphertext@, keypair@) is None,
        },
{
    let keypair = private_box::Keypair::from_slice(keypair).unwrap();
    match private_box::decrypt_key(ciphertext, &keypair) {
        Some(k) => Some(k.as_array().to_vec()),
        None => None,
    }
}

/// Calls `private_box::decrypt_body_with_key_bytes` (private-box 0.6).
///
/// Trusted: the result is the one named `box_body`. The function panics
/// unless the key has 33 bytes and the ciphertext holds the 56-byte header,
/// 49 bytes per recipient (the count is the key's first byte) and a 16-byte
/// authentication code; the `requires` guarantees all three.
#[verifier::external_body]
fn open_body(ciphertext: &[u8], message_key: &[u8]) -> (plain: Option<Vec<u8>>)
    requires
        message_key@.len() == 33,
        body_fits(ciphertext@, message_key@),
    ensures
        match plain {
            Some(p) => box_body(ciphertext@, message_key@) == Some(p@),
            None => box_body(ciphertext@, message_key@) is None,
        },
{
    private_box::decrypt_body_with_key_bytes(ciphertext, message_key)
}

/// Whether `ciphertext` is long enough for the body that `message_key`
/// describes: the header, one boxed key per recipient, and the
/// authentication code.
pub open spec fn body_fits(ciphertext: Seq<u8>, message_key: Seq<u8>) -> bool {
    ciphertext.len() >= 56 + 49 * message_key[0] + 16
}

/// What trying keys on a ciphertext comes to: a plaintext, no key opening
/// it, or a ciphertext that `private_box::decrypt` cannot read without
/// panicking (too short for its header, or for the recipients its key says).
pub enum BoxOutcome {
    Opened(Seq<u8>),
    Unopened,
    Malformed,
}

/// What `private_box::decrypt` does with one keypair.
pub open spec fn key_outcome(ciphertext: Seq<u8>, keypair: Seq<u8>) -> BoxOutcome {
    if ciphertext.len() < 56 {
        BoxOutcome::Malformed
    } else {
        match box_message_key(ciphertext, keypair) {
            None => BoxOutcome::Unopened,
            Some(k) => if body_fits(ciphertext, k) {
                match box_body(ciphertext, k) {
                    Some(p) => BoxOutcome::Opened(p),
                    None => BoxOutcome::Unopened,
                }
            } else {
                BoxOutcome::Malformed
            },
        }
    }
}

/// Trying `keypairs` in order: the first outcome that is not `Unopened`.
pub open spec fn first_opening(ciphertext: Seq<u8>, keypairs: Seq<Seq<u8>>) -> BoxOutcome
    decreases keypairs.len(),
{
    if keypairs.len() == 0 {
        BoxOutcome::Unopened
    } else {
        match key_outcome(ciphertext, keypairs[0]) {
            BoxOutcome::Unopened => first_opening(ciphertext, keypairs.drop_first()),
            other => other,
        }
    }
}

/// The result of trying keys on a ciphertext.
#[derive(Debug)]
pub enum Opening {
    Opened(Vec<u8>),
    Unopened,
    Malformed,
}

/// Whether an exec `Opening` is the outcome `outcome`.
pub open spec fn opening_is(opening: Opening, outcome: BoxOutcome) -> bool {
    match outcome {
        BoxOutcome::Opened(p) => opening matches Opening::Opened(q) && q@ == p,
        BoxOutcome::Unopened => opening is Unopened,
        BoxOutcome::Malformed => opening is Malformed,
    }
}

/// The bytes of each keypair.
pub open spec fn keypair_views(keypairs: Seq<Vec<u8>>) -> Seq<Seq<u8>> {
    keypairs.map_values(|k: Vec<u8>| k@)
}

/// Tries one keypair (64 bytes) on a ciphertext.
pub fn open_with_key(ciphertext: &[u8], keypair: &[u8]) -> (opening: Opening)
    requires
        keypair@.len() == 64,
    ensures
        opening_is(opening, key_outcome(ciphertext@, keypair@)),
{
    if ciphertext.len() < 56 {
        return Opening::Malformed;
    }
    match open_message_key(ciphertext, keypair) {
        None => Opening::Unopened,
        Some(k) => {
            let recipients = k[0] as usize;
            if ciphertext.len() >= 56 + 49 * recipients + 16 {
                match open_body(ciphertext, k.as_slice()) {
                    Some(p) => Opening::Opened(p),
                    None => Opening::Unopened,
                }
            } else {
                Opening::Malformed
            }
        },
    }
}

/// Tries the keypairs (64 bytes each) in order on a ciphertext, stopping at
/// the first that opens it or finds it malformed.
pub fn open_with_first_key(ciphertext: &[u8], keypairs: &Vec<Vec<u8>>) -> (opening: Opening)
    requires
        forall|i: int| 0 <= i < keypairs@.len() ==> (#[trigger] keypairs@[i])@.len() == 64,
    ensures
        opening_is(opening, first_opening(ciphertext@, keypair_views(keypairs@))),
{
    let mut i: usize = 0;
    assert(keypair_views(keypairs@).skip(0) =~= keypair_views(keypairs@));
    while i < keypairs.len()
        invariant
            i <= keypairs@.len(),
            forall|j: int| 0 <= j < keypairs@.len() ==> (#[trigger] keypairs@[j])@.len() == 64,
            first_opening(ciphertext@, keypair_views(keypairs@)) == first_opening(
                ciphertext@,
                keypair_views(keypairs@).skip(i as int),
            ),
        decreases keypairs.len() - i,
    {
        let ghost rest = keypair_views(keypairs@).skip(i as int);
        assert(rest[0] == keypairs@[i as int]@);
        assert(rest.drop_first() =~= keypair_views(keypairs@).skip(i + 1));
        match open_with_key(ciphertext, keypairs[i].as_slice()) {
            Opening::Unopened => {},
            other => {
                return other;
            },
        }
        i = i + 1;
    }
    Opening::Unopened
}

/// What reading a message's content as a private message comes to.
#[derive(Debug)]
pub enum Decryption {
    /// The content is public (it has a `type`) and stays as it is.
    Public,
    /// A keypair opened it: this is the plaintext.
    Opened(Vec<u8>),
    /// No keypair opened it.
    Unopened,
}

/// Why a content cannot be read as a private message; reading it panics.
#[derive(Debug)]
pub enum DecryptionError {
    /// The text is not valid base64: the decoder's error text.
    Undecodable(String),
    /// A keypair reads a ciphertext too short for its header, or for the
    /// recipients its message key counts.
    Malformed,
}

/// Whether a content that is read as a private message holds valid base64
/// (after its `.box` suffix).
pub open spec fn boxed_decodable(content: JsonValue) -> bool {
    !(boxed_payload(content) matches Some(Err(_)))
}

/// What trying `keypairs` on the ciphertext of `content` comes to; a public
/// or undecodable content has no ciphertext and nothing opens.
pub open spec fn decryption_outcome(content: JsonValue, keypairs: Seq<Seq<u8>>) -> BoxOutcome {
    match boxed_payload(content) {
        Some(Ok(c)) => first_opening(c, keypairs),
        _ => BoxOutcome::Unopened,
    }
}

/// Whether reading `content` as a private message with `keypairs` can be
/// done without panicking: it is public, or valid base64 that no keypair
/// finds malformed.
pub open spec fn decryptable(content: JsonValue, keypairs: Seq<Seq<u8>>) -> bool {
    &&& boxed_readable(content)
    &&& boxed_decodable(content)
    &&& !(decryption_outcome(content, keypairs) is Malformed)
}

/// Whether an exec `Decryption` is what reading `content` with `keypairs`
/// comes to.
pub open spec fn decryption_is(res: Decryption, content: JsonValue, keypairs: Seq<Seq<u8>>) -> bool {
    if boxed_payload(content) is None {
        res is Public
    } else {
        match decryption_outcome(content, keypairs) {
            BoxOutcome::Opened(p) => res matches Decryption::Opened(q) && q@ == p,
            BoxOutcome::Unopened => res is Unopened,
            BoxOutcome::Malformed => false,
        }
    }
}

/// Reads a message's content as a private message and tries the keypairs
/// (64 bytes each) on it, in order: the first that opens it gives the
/// plaintext. The content must be public, or a string of valid base64 that
/// no keypair finds malformed (reading any other panics).
pub fn attempt_decryption(content: &JsonValue, keypairs: &Vec<Vec<u8>>) -> (res: Decryption)
    requires
        decryptable(*content, keypair_views(keypairs@)),
        forall|i: int| 0 <= i < keypairs@.len() ==> (#[trigger] keypairs@[i])@.len() == 64,
    ensures
        decryption_is(res, *content, keypair_views(keypairs@)),
{
    match boxed_ciphertext(content) {
        Some(Ok(bytes)) => match open_with_first_key(bytes.as_slice(), keypairs) {
            Opening::Opened(p) => Decryption::Opened(p),
            _ => Decryption::Unopened,
        },
        _ => Decryption::Public,
    }
}

/// Reads a message's content as a private message as `attempt_decryption`
/// does, after checking that it can: otherwise says why not. (The ciphertext
/// is decoded and tried once for the check and once more for the reading.)
pub fn checked_decryption(content: &JsonValue, keypairs: &Vec<Vec<u8>>) -> (res: Result<
    Decryption,
    DecryptionError,
>)
    requires
        boxed_readable(*content),
        forall|i: int| 0 <= i < keypairs@.len() ==> (#[trigger] keypairs@[i])@.len() == 64,
    ensures
        match res {
            Ok(d) => decryptable(*content, keypair_views(keypairs@)) && decryption_is(
                d,
                *content,
                keypair_views(keypairs@),
            ),
            Err(DecryptionError::Undecodable(e)) => boxed_payload(*content) == Some(
                Err::<Seq<u8>, Seq<char>>(e@),
            ),
            Err(DecryptionError::Malformed) => boxed_decodable(*content) && decryption_outcome(
                *content,
                keypair_views(keypairs@),
            ) is Malformed,
        },
{
    match boxed_ciphertext(content) {
        Some(Err(e)) => Err(DecryptionError::Undecodable(e)),
        Some(Ok(bytes)) => match open_with_first_key(bytes.as_slice(), keypairs) {
            Opening::Malformed => Err(DecryptionError::Malformed),
            _ => Ok(attempt_decryption(content, keypairs)),
        },
        None => Ok(attempt_decryption(content, keypairs)),
    }
}

} // verus!
