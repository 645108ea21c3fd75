//! Hexadecimal text: two digits per byte, high nibble first.

use vstd::prelude::*;

verus! {

/// Why a text is not the hexadecimal form of any byte string.
#[derive(Debug, Clone, Copy, PartialEq, Eq, Structural)]
pub enum Error {
    /// The byte `c` at position `index` is not a hexadecimal digit, and it is
    /// the first such byte of the text.
    InvalidHexCharacter { c: u8, index: usize },
    /// The text has an odd number of digits.
    OddLength,
}

/// `b` is one of `0-9`, `a-f`, `A-F`.
pub open spec fn is_hex_digit(b: u8) -> bool {
    (0x30 <= b <= 0x39) || (0x61 <= b <= 0x66) || (0x41 <= b <= 0x46)
}

/// The number that the hexadecimal digit `b` stands for.
pub open spec fn digit_value(b: u8) -> int {
    if 0x30 <= b <= 0x39 {
        b - 0x30
    } else if 0x61 <= b <= 0x66 {
        b - 0x61 + 10
    } else {
        b - 0x41 + 10
    }
}

/// The lower-case hexadecimal digit for a number below sixteen.
pub open spec fn digit_of(v: int) -> u8 {
    if v < 10 {
        (0x30 + v) as u8
    } else {
        (0x61 + (v - 10)) as u8
    }
}

/// `text` is the hexadecimal form of some byte string.
pub open spec fn is_hex(text: Seq<u8>) -> bool {
    &&& text.len() % 2 == 0
    &&& forall|i: int| 0 <= i < text.len() ==> is_hex_digit(#[trigger] text[i])
}

/// The byte string that `text` is the hexadecimal form of.
pub open spec fn decoded(text: Seq<u8>) -> Seq<u8> {
    Seq::new(
        text.len() / 2,
        |k: int| (16 * digit_value(text[2 * k]) + digit_value(text[2 * k + 1])) as u8,
    )
}

/// The lower-case hexadecimal form of `bytes`.
pub open spec fn encoded(bytes: Seq<u8>) -> Seq<u8> {
    Seq::new(
        2 * bytes.len(),
        |i: int|
            if i % 2 == 0 {
                digit_of(bytes[i / 2] as int / 16)
            } else {
                digit_of(bytes[i / 2] as int % 16)
            },
    )
}

fn digit(b: u8) -> (v: Option<u8>)
    ensures
        v is Some <==> is_hex_digit(b),
        v matches Some(n) ==> n == digit_value(b) && n < 16,
{
    if 0x30 <= b && b <= 0x39 {
        Some(b - 0x30)
    } else if 0x61 <= b && b <= 0x66 {
        Some(b - 0x61 + 10)
    } else if 0x41 <= b && b <= 0x46 {
        Some(b - 0x41 + 10)
    } else {
        None
    }
}

/// Reads hexadecimal text into the bytes it stands for. Digits of either case
/// are accepted. A text of odd length is refused as such before any digit is
/// looked at; otherwise the first byte that is no digit is reported.
pub fn decode(text: &[u8]) -> (result: Result<Vec<u8>, Error>)
    ensures
        match result {
            Ok(bytes) => is_hex(text@) && bytes@ == decoded(text@),
            Err(Error::OddLength) => text@.len() % 2 == 1,
            Err(Error::InvalidHexCharacter { c, index }) => {
                &&& text@.len() % 2 == 0
                &&& index < text@.len()
                &&& c == text@[index as int]
                &&& !is_hex_digit(c)
                &&& forall|j: int| 0 <= j < index ==> is_hex_digit(#[trigger] text@[j])
            },
        },
{
    let len: usize = text.len();
    if len % 2 != 0 {
        return Err(Error::OddLength);
    }
    let mut bytes: Vec<u8> = Vec::new();
    let mut i: usize = 0;
    while i < len
        invariant
            len == text@.len(),
            len % 2 == 0,
            i % 2 == 0,
            i <= len,
            bytes@.len() == i / 2,
            forall|j: int| 0 <= j < i ==> is_hex_digit(#[trigger] text@[j]),
            forall|k: int|
                0 <= k < bytes@.len() ==> #[trigger] bytes@[k] == decoded(text@)[k],
        decreases len - i,
    {
        let high: u8 = match digit(text[i]) {
            Some(v) => v,
            None => {
                return Err(Error::InvalidHexCharacter { c: text[i], index: i });
            },
        };
        let low: u8 = match digit(text[i + 1]) {
            Some(v) => v,
            None => {
                return Err(Error::InvalidHexCharacter { c: text[i + 1], index: i + 1 });
            },
        };
        bytes.push(high * 16 + low);
        i = i + 2;
    }
    Ok(bytes)
}

fn digit_char(v: u8) -> (b: u8)
    requires
        v < 16,
    ensures
        b == digit_of(v as int),
        is_hex_digit(b),
        digit_value(b) == v,
{
    if v < 10 {
        0x30 + v
    } else {
        0x61 + (v - 10)
    }
}

/// Writes `data` as lower-case hexadecimal text.
pub fn encode(data: &[u8]) -> (text: String)
    ensures
        text@.len() == 2 * data@.len(),
        forall|i: int| 0 <= i < text@.len() ==> #[trigger] text@[i] == encoded(data@)[i] as char,
        vstd::utf8::encode_utf8(text@) == encoded(data@),
{
    let mut text = String::new();
    let mut i: usize = 0;
    while i < data.len()
        invariant
            i <= data@.len(),
            text@.len() == 2 * i,
            forall|j: int| 0 <= j < text@.len() ==> #[trigger] text@[j] == encoded(data@)[j] as char,
        decreases data@.len() - i,
    {
        let byte: u8 = data[i];
        text.push(digit_char(byte / 16) as char);
        text.push(digit_char(byte % 16) as char);
        i = i + 1;
    }
    proof {
        assert(vstd::utf8::is_ascii_chars(text@)) by {
            assert forall|j: int| 0 <= j < text@.len() implies '\0' <= #[trigger] text@[j]
                <= '\u{7f}' by {
                assert(text@[j] == encoded(data@)[j] as char);
            }
        }
        vstd::utf8::is_ascii_chars_encode_utf8(text@);
        assert(vstd::utf8::encode_utf8(text@) =~= encoded(data@));
    }
    text
}

/// Decoding undoes encoding: the hexadecimal form of any byte string is
/// hexadecimal text, and it stands for that byte string.
pub proof fn decoded_encoded(bytes: Seq<u8>)
    ensures
        is_hex(encoded(bytes)),
        decoded(encoded(bytes)) == bytes,
{
    let text = encoded(bytes);
    assert forall|k: int| 0 <= k < bytes.len() implies decoded(text)[k] == bytes[k] by {
        assert(text[2 * k] == digit_of(bytes[k] as int / 16));
        assert(text[2 * k + 1] == digit_of(bytes[k] as int % 16));
    }
    assert(decoded(text) =~= bytes);
}

} // verus!
