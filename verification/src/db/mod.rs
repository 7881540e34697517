//! Opening the store: the database URI and the key used to open private
//! messages.

use crate::cursor::{base64_decode, base64_decoding};
use crate::text::{concat4, trim_end_matches, trim_suffix_all};
use vstd::prelude::*;

pub mod models;

verus! {

/// The SQLite URI that opens the database file at `path` in mode `rw_mode`.
pub fn to_sqlite_uri(path: &str, rw_mode: &str) -> (uri: String)
    ensures
        uri@ == "file:"@ + path@ + "?mode="@ + rw_mode@,
{
    concat4("file:", path, "?mode=", rw_mode)
}

/// The bytes of a base64 key, or the single byte `0` when the text is not
/// valid base64 (which no key can be built from).
pub open spec fn key_bytes_or_zero(text: Seq<char>) -> Seq<u8> {
    match base64_decoding(text) {
        Ok(b) => b,
        Err(_) => seq![0u8],
    }
}

/// Decodes a base64 key, falling back to the single byte `0`.
pub fn decode_key_or_zero(text: &str) -> (bytes: Vec<u8>)
    ensures
        bytes@ == key_bytes_or_zero(text@),
{
    match base64_decode(text) {
        Ok(b) => b,
        Err(_) => vec![0u8],
    }
}

/// The bytes of a secret key written as `<base64>.ed25519`: the suffix is
/// trimmed (every trailing repetition of it) before decoding.
pub fn secret_key_bytes(secret_key_string: &str) -> (bytes: Vec<u8>)
    ensures
        bytes@ == key_bytes_or_zero(trim_suffix_all(secret_key_string@, ".ed25519"@)),
{
    let trimmed = trim_end_matches(secret_key_string, ".ed25519");
    decode_key_or_zero(trimmed.as_str())
}

/// The keypair bytes a secret key string gives: its decoded bytes when there
/// are 64 of them (the size of an ed25519 keypair), else 64 zero bytes, a
/// keypair that opens no message addressed to us.
pub open spec fn keypair_bytes_of(secret_key_string: Seq<char>) -> Seq<u8> {
    let bytes = key_bytes_or_zero(trim_suffix_all(secret_key_string, ".ed25519"@));
    if bytes.len() == 64 {
        bytes
    } else {
        Seq::new(64, |i: int| 0u8)
    }
}

/// Chooses the keypair used to open private messages from the secret key
/// string.
pub fn keypair_bytes(secret_key_string: &str) -> (keypair: Vec<u8>)
    ensures
        keypair@ == keypair_bytes_of(secret_key_string@),
{
    let bytes = secret_key_bytes(secret_key_string);
    if bytes.len() == 64 {
        bytes
    } else {
        let mut zeros: Vec<u8> = Vec::new();
        let mut i: usize = 0;
        while i < 64
            invariant
                i <= 64,
                zeros@ == Seq::new(i as nat, |j: int| 0u8),
            decreases 64 - i,
        {
            zeros.push(0u8);
            assert(zeros@ =~= Seq::new((i + 1) as nat, |j: int| 0u8));
            i = i + 1;
        }
        zeros
    }
}

} // verus!
