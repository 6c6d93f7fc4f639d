//! Digests as the operator writes them: two characters for each byte.

use vstd::prelude::*;
use vstd::string::*;

verus! {

/// Why a text is not the hex form of a byte sequence.
#[derive(Clone, Copy, Debug, PartialEq, Eq, Structural)]
pub enum HexError {
    /// A pair of characters does not denote a byte.
    InvalidDigit,
    /// Every pair denotes a byte, but one character is left over.
    OddLength,
}

/// The value of a hex digit, in either case.
pub open spec fn digit_value(c: u8) -> Option<u8> {
    if 48 <= c <= 57 {
        Some((c - 48) as u8)
    } else if 97 <= c <= 102 {
        Some((c - 87) as u8)
    } else if 65 <= c <= 70 {
        Some((c - 55) as u8)
    } else {
        None
    }
}

/// The byte that two characters denote: two hex digits, or a plus sign and
/// one hex digit.
pub open spec fn pair_value(first: u8, second: u8) -> Option<u8> {
    match (digit_value(first), digit_value(second)) {
        (Some(high), Some(low)) => Some((16 * high + low) as u8),
        (None, Some(low)) => if first == 43 { Some(low) } else { None },
        _ => None,
    }
}

/// The byte that the `i`-th pair of `text` denotes.
pub open spec fn pair_at(text: Seq<u8>, i: int) -> Option<u8> {
    pair_value(text[2 * i], text[2 * i + 1])
}

/// Whether each of the first `n` pairs of `text` denotes a byte.
pub open spec fn pairs_valid(text: Seq<u8>, n: int) -> bool {
    forall|i: int| 0 <= i < n ==> (#[trigger] pair_at(text, i)) is Some
}

fn digit(c: u8) -> (value: Option<u8>)
    ensures
        value == digit_value(c),
{
    if 48 <= c && c <= 57 {
        Some(c - 48)
    } else if 97 <= c && c <= 102 {
        Some(c - 87)
    } else if 65 <= c && c <= 70 {
        Some(c - 55)
    } else {
        None
    }
}

fn pair(first: u8, second: u8) -> (value: Option<u8>)
    ensures
        value == pair_value(first, second),
{
    match (digit(first), digit(second)) {
        (Some(high), Some(low)) => Some(16 * high + low),
        (None, Some(low)) => if first == 43 { Some(low) } else { None },
        _ => None,
    }
}

/// Decode a hexadecimal string, pair by pair from the left.
///
/// Fails with `InvalidDigit` at the first pair that denotes no byte, and with
/// `OddLength` if every pair denotes one and a single character is left.
pub fn decode_hex(s: &str) -> (r: Result<Vec<u8>, HexError>)
    ensures
        match r {
            Ok(bytes) => {
                &&& s.spec_bytes().len() == 2 * bytes@.len()
                &&& forall|i: int|
                    0 <= i < bytes@.len() ==> #[trigger] pair_at(s.spec_bytes(), i) == Some(
                        bytes@[i],
                    )
            },
            Err(HexError::InvalidDigit) => exists|i: int|
                0 <= i && 2 * i + 1 < s.spec_bytes().len() && pairs_valid(s.spec_bytes(), i)
                    && (#[trigger] pair_at(s.spec_bytes(), i)) is None,
            Err(HexError::OddLength) => s.spec_bytes().len() % 2 == 1 && pairs_valid(
                s.spec_bytes(),
                s.spec_bytes().len() as int / 2,
            ),
        },
{
    let text = s.as_bytes();
    let mut bytes: Vec<u8> = Vec::new();
    let mut at: usize = 0;
    while text.len() - at >= 2
        invariant
            text@ == s.spec_bytes(),
            at <= text@.len(),
            at == 2 * bytes@.len(),
            forall|i: int| 0 <= i < bytes@.len() ==> #[trigger] pair_at(text@, i) == Some(bytes@[i]),
        decreases text@.len() - at,
    {
        match pair(text[at], text[at + 1]) {
            Some(byte) => {
                bytes.push(byte);
            },
            None => {
                assert(pair_at(text@, bytes@.len() as int) is None);
                return Err(HexError::InvalidDigit);
            },
        }
        at += 2;
    }
    if at < text.len() {
        return Err(HexError::OddLength);
    }
    Ok(bytes)
}

} // verus!
