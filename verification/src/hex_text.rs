//! Lowercase hexadecimal text, as produced by `hex::encode` and read back by `hex::decode`.
use vstd::prelude::*;
use vstd::utf8::*;

verus! {

/// The lowercase hex digit of a value below 16.
pub open spec fn hex_digit(n: int) -> char {
    if n < 10 {
        (n + 48) as char
    } else {
        (n + 87) as char
    }
}

/// Lowercase hex text of a byte sequence: two digits per byte, high nibble first.
pub open spec fn hex_lower(bytes: Seq<u8>) -> Seq<char> {
    Seq::new(
        2 * bytes.len(),
        |i: int|
            if i % 2 == 0 {
                hex_digit(bytes[i / 2] as int / 16)
            } else {
                hex_digit(bytes[i / 2] as int % 16)
            },
    )
}

/// The value of one hex digit byte, either case.
pub open spec fn hex_value(b: u8) -> Option<u8> {
    if 48 <= b <= 57 {
        Some((b - 48) as u8)
    } else if 97 <= b <= 102 {
        Some((b - 87) as u8)
    } else if 65 <= b <= 70 {
        Some((b - 55) as u8)
    } else {
        None
    }
}

/// Index of the first byte at or after `from` that is not a hex digit, or the length.
pub open spec fn first_non_hex(b: Seq<u8>, from: int) -> int
    decreases b.len() - from,
{
    if from >= b.len() {
        b.len() as int
    } else if hex_value(b[from]) is None {
        from
    } else {
        first_non_hex(b, from + 1)
    }
}

/// Why hex text could not be decoded.
#[derive(Clone, Copy, Debug, PartialEq, Eq, Structural)]
pub enum HexError {
    /// A byte that is not a hex digit, and its position.
    InvalidHexCharacter { c: char, index: usize },
    /// The text has an odd number of bytes.
    OddLength,
    /// The text does not fit the fixed-size output.
    InvalidStringLength,
}

/// What decoding hex text gives: an error for odd length, else an error at the
/// first non-digit byte, else the bytes, two digits per byte.
pub open spec fn hex_decode_spec(b: Seq<u8>) -> Result<Seq<u8>, HexError> {
    if b.len() % 2 == 1 {
        Err(HexError::OddLength)
    } else if first_non_hex(b, 0) < b.len() {
        let i = first_non_hex(b, 0);
        Err(HexError::InvalidHexCharacter { c: b[i] as char, index: i as usize })
    } else {
        Ok(
            Seq::new(
                b.len() / 2,
                |k: int|
                    (hex_value(b[2 * k])->0 * 16 + hex_value(b[2 * k + 1])->0) as u8,
            ),
        )
    }
}

/// Lowercase hex text of `data` (`hex::encode`): the contract states the text exactly.
#[verifier::external_body]
pub(crate) fn hex_encode(data: &[u8]) -> (res: String)
    ensures
        res@ == hex_lower(data@),
{
    hex::encode(data)
}

/// Decodes hex text of either case (`hex::decode`): the contract states the result,
/// and the error, exactly.
#[verifier::external_body]
pub(crate) fn hex_decode(text: &str) -> (res: Result<Vec<u8>, HexError>)
    ensures
        match res {
            Ok(v) => hex_decode_spec(encode_utf8(text@)) == Ok::<Seq<u8>, HexError>(v@),
            Err(e) => hex_decode_spec(encode_utf8(text@)) == Err::<Seq<u8>, HexError>(e),
        },
{
    match hex::decode(text) {
        Ok(v) => Ok(v),
        Err(hex::FromHexError::InvalidHexCharacter { c, index }) => Err(
            HexError::InvalidHexCharacter { c, index },
        ),
        Err(hex::FromHexError::OddLength) => Err(HexError::OddLength),
        Err(hex::FromHexError::InvalidStringLength) => Err(HexError::InvalidStringLength),
    }
}

/// Hex text holds ASCII characters only.
pub proof fn lemma_hex_lower_ascii(bytes: Seq<u8>)
    ensures
        is_ascii_chars(hex_lower(bytes)),
        hex_lower(bytes).len() == 2 * bytes.len(),
{
    assert forall|i| 0 <= i < hex_lower(bytes).len() implies '\0' <= #[trigger] hex_lower(
        bytes,
    )[i] <= '\u{7f}' by {
        let b = bytes[i / 2];
        assert(0 <= b / 16 < 16);
        assert(0 <= b % 16 < 16);
    }
}

/// The UTF-8 bytes of hex text are the digit characters themselves.
pub proof fn lemma_hex_lower_bytes(bytes: Seq<u8>)
    ensures
        encode_utf8(hex_lower(bytes)).len() == 2 * bytes.len(),
        forall|i: int|
            0 <= i < 2 * bytes.len() ==> #[trigger] encode_utf8(hex_lower(bytes))[i]
                == hex_lower(bytes)[i] as u8,
{
    lemma_hex_lower_ascii(bytes);
    is_ascii_chars_encode_utf8(hex_lower(bytes));
}

proof fn lemma_all_hex_from(b: Seq<u8>, from: int)
    requires
        0 <= from <= b.len(),
        forall|i: int| from <= i < b.len() ==> #[trigger] hex_value(b[i]) is Some,
    ensures
        first_non_hex(b, from) == b.len(),
    decreases b.len() - from,
{
    if from < b.len() {
        lemma_all_hex_from(b, from + 1);
    }
}

/// Decoding lowercase hex text gives back the bytes it was made from.
pub proof fn lemma_hex_roundtrip(bytes: Seq<u8>)
    ensures
        hex_decode_spec(encode_utf8(hex_lower(bytes))) == Ok::<Seq<u8>, HexError>(bytes),
{
    let text = encode_utf8(hex_lower(bytes));
    lemma_hex_lower_bytes(bytes);
    assert forall|i: int| 0 <= i < text.len() implies #[trigger] hex_value(text[i]) is Some by {
        let b = bytes[i / 2];
        assert(0 <= b / 16 < 16);
        assert(0 <= b % 16 < 16);
    }
    lemma_all_hex_from(text, 0);
    assert(text.len() % 2 == 0);
    let decoded = Seq::new(
        text.len() / 2,
        |k: int| (hex_value(text[2 * k])->0 * 16 + hex_value(text[2 * k + 1])->0) as u8,
    );
    assert forall|k: int| 0 <= k < bytes.len() implies #[trigger] decoded[k] == bytes[k] by {
        let b = bytes[k];
        assert(text[2 * k] == hex_lower(bytes)[2 * k] as u8);
        assert(text[2 * k + 1] == hex_lower(bytes)[2 * k + 1] as u8);
        assert((2 * k) / 2 == k);
        assert((2 * k + 1) / 2 == k);
        assert((2 * k) % 2 == 0);
        assert((2 * k + 1) % 2 == 1);
        assert(hex_value(text[2 * k])->0 == b / 16);
        assert(hex_value(text[2 * k + 1])->0 == b % 16);
    }
    assert(decoded =~= bytes);
}

} // verus!
