//! Opaque pagination cursors: a flume sequence number, stored as eight
//! little-endian bytes and written in standard, padded base64.

use bytes::ByteOrder;
use vstd::prelude::*;

verus! {


/// What `base64::decode` (standard alphabet) produces for the UTF-8 text
/// `text`: the decoded bytes, or the text (`to_string`) of the `DecodeError`
/// it reports.
pub uninterp spec fn base64_decoding(text: Seq<char>) -> Result<Seq<u8>, Seq<char>>;

/// The standard base64 alphabet: the character for each six-bit value.
pub open spec fn base64_alphabet() -> Seq<char> {
    seq![
        'A', 'B', 'C', 'D', 'E', 'F', 'G', 'H', 'I', 'J', 'K', 'L', 'M', 'N', 'O', 'P',
        'Q', 'R', 'S', 'T', 'U', 'V', 'W', 'X', 'Y', 'Z', 'a', 'b', 'c', 'd', 'e', 'f',
        'g', 'h', 'i', 'j', 'k', 'l', 'm', 'n', 'o', 'p', 'q', 'r', 's', 't', 'u', 'v',
        'w', 'x', 'y', 'z', '0', '1', '2', '3', '4', '5', '6', '7', '8', '9', '+', '/',
    ]
}

/// The character for the six-bit value `v`.
pub open spec fn base64_char(v: int) -> char {
    base64_alphabet()[v]
}

/// Standard base64 with padding: each group of three bytes becomes four
/// characters, six bits each, most significant first; a last group of one
/// or two bytes is filled with zero bits and padded with `=` to four.
pub open spec fn base64_text(b: Seq<u8>) -> Seq<char>
    decreases b.len(),
{
    if b.len() == 0 {
        Seq::empty()
    } else if b.len() == 1 {
        let x = b[0] as int;
        seq![base64_char(x / 4), base64_char((x % 4) * 16), '=', '=']
    } else if b.len() == 2 {
        let (x, y) = (b[0] as int, b[1] as int);
        seq![base64_char(x / 4), base64_char((x % 4) * 16 + y / 16), base64_char((y % 16) * 4), '=']
    } else {
        let (x, y, z) = (b[0] as int, b[1] as int, b[2] as int);
        seq![
            base64_char(x / 4),
            base64_char((x % 4) * 16 + y / 16),
            base64_char((y % 16) * 4 + z / 64),
            base64_char(z % 64),
        ] + base64_text(b.subrange(3, b.len() as int))
    }
}

/// A successful decoding to `bytes`.
pub open spec fn decoded_ok(bytes: Seq<u8>) -> Result<Seq<u8>, Seq<char>> {
    Ok(bytes)
}

/// A failed decoding with the error text `message`.
pub open spec fn decoded_err(message: Seq<char>) -> Result<Seq<u8>, Seq<char>> {
    Err(message)
}

/// Calls `base64::encode` (base64 0.10, `STANDARD` config).
///
/// Trusted: the text is the standard padded base64 of the bytes
/// (`base64_text`; the `STANDARD` config is the standard alphabet with
/// padding), and decoding it with `base64::decode` gives the bytes back, the
/// round trip the crate tests.
/// The crate panics only when the encoded length overflows `usize`, which the
/// `requires` rules out.
#[verifier::external_body]
pub(crate) fn base64_encode(bytes: &[u8]) -> (text: String)
    requires
        bytes@.len() <= usize::MAX / 4,
    ensures
        text@ == base64_text(bytes@),
        base64_decoding(text@) == decoded_ok(bytes@),
{
    base64::encode(bytes)
}

/// Calls `base64::decode` (base64 0.10, `STANDARD` config) on the bytes of
/// `text`, and writes a `DecodeError` as its `Display` text.
///
/// Trusted: the result is the one named `base64_decoding`. The crate's only
/// panics are on length overflows of inputs longer than any Rust string can
/// be.
#[verifier::external_body]
pub(crate) fn base64_decode(text: &str) -> (res: Result<Vec<u8>, String>)
    ensures
        match res {
            Ok(bytes) => base64_decoding(text@) == decoded_ok(bytes@),
            Err(message) => base64_decoding(text@) == decoded_err(message@),
        },
{
    match base64::decode(text) {
        Ok(bytes) => Ok(bytes),
        Err(err) => Err(err.to_string()),
    }
}

/// The unsigned value of the first eight bytes of `b`, least significant first.
pub open spec fn le_u64(b: Seq<u8>) -> u64 {
    (b[0] as u64) | ((b[1] as u64) << 8u64) | ((b[2] as u64) << 16u64) | ((b[3] as u64)
        << 24u64) | ((b[4] as u64) << 32u64) | ((b[5] as u64) << 40u64) | ((b[6] as u64)
        << 48u64) | ((b[7] as u64) << 56u64)
}

/// The eight bytes of `v`, least significant first.
pub open spec fn u64_le_bytes(v: u64) -> Seq<u8> {
    seq![
        v as u8,
        (v >> 8u64) as u8,
        (v >> 16u64) as u8,
        (v >> 24u64) as u8,
        (v >> 32u64) as u8,
        (v >> 40u64) as u8,
        (v >> 48u64) as u8,
        (v >> 56u64) as u8,
    ]
}

/// Calls `LittleEndian::read_i64` (byteorder, through `bytes` 0.4).
///
/// Trusted: the crate reads `u64::from_le_bytes(buf[..8])` and casts it to
/// `i64`; it panics when `buf` holds fewer than eight bytes, which the
/// `requires` rules out.
#[verifier::external_body]
pub(crate) fn read_i64_le(buf: &[u8]) -> (v: i64)
    requires
        buf@.len() >= 8,
    ensures
        v == le_u64(buf@) as i64,
{
    bytes::LittleEndian::read_i64(buf)
}

/// Reading back the bytes of `v` gives `v`.
pub proof fn lemma_le_bytes_roundtrip(v: u64)
    ensures
        le_u64(u64_le_bytes(v)) == v,
{
    let b = u64_le_bytes(v);
    assert(b[0] == v as u8 && b[1] == (v >> 8u64) as u8 && b[2] == (v >> 16u64) as u8 && b[3]
        == (v >> 24u64) as u8 && b[4] == (v >> 32u64) as u8 && b[5] == (v >> 40u64) as u8
        && b[6] == (v >> 48u64) as u8 && b[7] == (v >> 56u64) as u8);
    assert(((v as u8) as u64) | ((((v >> 8u64) as u8) as u64) << 8u64) | ((((v >> 16u64) as u8)
        as u64) << 16u64) | ((((v >> 24u64) as u8) as u64) << 24u64) | ((((v >> 32u64) as u8)
        as u64) << 32u64) | ((((v >> 40u64) as u8) as u64) << 40u64) | ((((v >> 48u64) as u8)
        as u64) << 48u64) | ((((v >> 56u64) as u8) as u64) << 56u64) == v) by (bit_vector);
}

/// A signed cursor survives the trip through its unsigned bytes.
pub proof fn lemma_cursor_bytes_roundtrip(c: i64)
    ensures
        le_u64(u64_le_bytes(c as u64)) as i64 == c,
{
    lemma_le_bytes_roundtrip(c as u64);
    assert((c as u64) as i64 == c) by (bit_vector);
}

/// The text of the cursor for sequence number `c`.
pub open spec fn cursor_text(c: i64) -> Seq<char> {
    base64_text(u64_le_bytes(c as u64))
}

/// Every six-bit value has its character in the alphabet.
pub proof fn lemma_base64_char_in_alphabet(v: int)
    requires
        0 <= v < 64,
    ensures
        base64_alphabet().contains(base64_char(v)),
{
    assert(base64_alphabet()[v] == base64_char(v));
}

/// A cursor's text has twelve characters: eleven of the base64 alphabet and
/// one `=` of padding, as eight bytes make two full groups and a group of two.
pub proof fn lemma_cursor_text_shape(c: i64)
    ensures
        cursor_text(c).len() == 12,
        cursor_text(c)[11] == '=',
        forall|i: int| 0 <= i < 11 ==> base64_alphabet().contains(#[trigger] cursor_text(c)[i]),
{
    let b = u64_le_bytes(c as u64);
    let r1 = b.subrange(3, 8);
    let r2 = r1.subrange(3, 5);
    assert(r2.len() == 2);
    assert(base64_text(r1) == seq![
        base64_char((r1[0] as int) / 4),
        base64_char(((r1[0] as int) % 4) * 16 + (r1[1] as int) / 16),
        base64_char(((r1[1] as int) % 16) * 4 + (r1[2] as int) / 64),
        base64_char((r1[2] as int) % 64),
    ] + base64_text(r2));
    let s = cursor_text(c);
    assert(s =~= seq![
        base64_char((b[0] as int) / 4),
        base64_char(((b[0] as int) % 4) * 16 + (b[1] as int) / 16),
        base64_char(((b[1] as int) % 16) * 4 + (b[2] as int) / 64),
        base64_char((b[2] as int) % 64),
        base64_char((r1[0] as int) / 4),
        base64_char(((r1[0] as int) % 4) * 16 + (r1[1] as int) / 16),
        base64_char(((r1[1] as int) % 16) * 4 + (r1[2] as int) / 64),
        base64_char((r1[2] as int) % 64),
        base64_char((r2[0] as int) / 4),
        base64_char(((r2[0] as int) % 4) * 16 + (r2[1] as int) / 16),
        base64_char(((r2[1] as int) % 16) * 4),
        '=',
    ]);
    assert forall|v: int| 0 <= v < 64 implies #[trigger] base64_alphabet().contains(
        base64_char(v),
    ) by {
        lemma_base64_char_in_alphabet(v);
    }
    assert forall|i: int| 0 <= i < 11 implies base64_alphabet().contains(#[trigger] s[i]) by {
        assert(i == 0 || i == 1 || i == 2 || i == 3 || i == 4 || i == 5 || i == 6 || i == 7
            || i == 8 || i == 9 || i == 10);
    }
}

/// What decoding the cursor text `s` gives: the sequence number when its
/// base64 decoding succeeds with at least eight bytes (the first eight are
/// read), else the decoder's error text, or `short_cursor_message` when
/// there are fewer than eight bytes.
pub open spec fn cursor_decoding(s: Seq<char>) -> Result<i64, Seq<char>> {
    match base64_decoding(s) {
        Ok(b) => if b.len() >= 8 {
            Ok(le_u64(b) as i64)
        } else {
            Err(short_cursor_message())
        },
        Err(m) => Err(m),
    }
}

/// The sequence number that the cursor text `s` stands for, if any.
pub open spec fn cursor_value(s: Seq<char>) -> Option<i64> {
    match cursor_decoding(s) {
        Ok(v) => Some(v),
        Err(_) => None,
    }
}

/// The error text for a cursor that decodes to fewer than eight bytes.
pub open spec fn short_cursor_message() -> Seq<char> {
    "Error decoding cursor. Is it a valid base64 encoded i64?"@
}

/// The eight little-endian bytes of `v`.
fn le_bytes(v: u64) -> (b: Vec<u8>)
    ensures
        b@ == u64_le_bytes(v),
{
    vec![
        v as u8,
        (v >> 8u64) as u8,
        (v >> 16u64) as u8,
        (v >> 24u64) as u8,
        (v >> 32u64) as u8,
        (v >> 40u64) as u8,
        (v >> 48u64) as u8,
        (v >> 56u64) as u8,
    ]
}

/// Encodes a sequence number as a cursor string: the standard padded
/// base64 of its eight little-endian bytes, twelve characters ending in `=`.
///
/// Its base64 decoding is exactly the eight little-endian bytes of the
/// cursor, so decoding the result with `decode_cursor` gives `cursor` back.
pub fn encode_cursor(cursor: i64) -> (s: String)
    ensures
        s@ == cursor_text(cursor),
        s@.len() == 12,
        s@[11] == '=',
        forall|i: int| 0 <= i < 11 ==> base64_alphabet().contains(#[trigger] s@[i]),
        base64_decoding(s@) == Ok::<Seq<u8>, Seq<char>>(u64_le_bytes(cursor as u64)),
        cursor_value(s@) == Some(cursor),
{
    let bytes = le_bytes(cursor as u64);
    let s = base64_encode(bytes.as_slice());
    proof {
        lemma_cursor_bytes_roundtrip(cursor);
        lemma_cursor_text_shape(cursor);
    }
    s
}

/// Decodes a cursor string into the sequence number it stands for.
///
/// Fails when the text is not valid base64 (with the decoder's message), or
/// when it decodes to fewer than eight bytes (with `short_cursor_message`).
pub fn decode_cursor(encoded: &str) -> (res: Result<i64, String>)
    ensures
        match res {
            Ok(v) => cursor_decoding(encoded@) == Ok::<i64, Seq<char>>(v),
            Err(m) => cursor_decoding(encoded@) == Err::<i64, Seq<char>>(m@),
        },
{
    match base64_decode(encoded) {
        Ok(bytes) => {
            if bytes.len() < 8 {
                let m = String::from_str("Error decoding cursor. Is it a valid base64 encoded i64?");
                proof {
                    reveal_strlit("Error decoding cursor. Is it a valid base64 encoded i64?");
                }
                Err(m)
            } else {
                Ok(read_i64_le(bytes.as_slice()))
            }
        },
        Err(message) => Err(message),
    }
}

} // verus!
