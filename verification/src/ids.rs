//! Identifiers: UUIDs are carried as the 128-bit numbers they pack into.
use vstd::prelude::*;
use vstd::arithmetic::power::pow;

verus! {

/// The UUID, as a number, that the `uuid` crate reads from a text, or `None` when it rejects
/// the text.
pub uninterp spec fn parsed_uuid(text: Seq<char>) -> Option<u128>;

/// A lowercase hexadecimal digit for `0 <= n < 16`.
pub open spec fn hex_digit(n: int) -> char {
    if n < 10 {
        (n + 48) as char
    } else {
        (n + 87) as char
    }
}

/// The `k`-th of the 32 hexadecimal digits of a 128-bit number, most significant first.
pub open spec fn hex_nibble(id: u128, k: int) -> char {
    hex_digit((id as int / pow(16, (31 - k) as nat)) % 16)
}

/// The hyphenated text the `uuid` crate prints for a UUID given as a number: its 32 lowercase
/// hexadecimal digits, most significant first, in groups of 8, 4, 4, 4 and 12 joined by `-`.
pub open spec fn uuid_text(id: u128) -> Seq<char> {
    Seq::new(
        36,
        |i: int|
            if i == 8 || i == 13 || i == 18 || i == 23 {
                '-'
            } else {
                hex_nibble(
                    id,
                    i - (if i < 8 {
                        0int
                    } else if i < 13 {
                        1int
                    } else if i < 18 {
                        2int
                    } else if i < 23 {
                        3int
                    } else {
                        4int
                    }),
                )
            },
    )
}

/// `Uuid::parse_str`, returned as the UUID's `as_u128` number, with the error mapped to
/// `None`. Claims that the result is the named reading of the text and that an empty text is
/// rejected (the parser only takes inputs of 32, 36, 38 or 45 bytes).
#[verifier::external_body]
pub fn parse_uuid(text: &str) -> (r: Option<u128>)
    ensures
        r == parsed_uuid(text@),
        text@.len() == 0 ==> r is None,
{
    match uuid::Uuid::parse_str(text) {
        Ok(id) => Some(id.as_u128()),
        Err(_) => None,
    }
}

/// `Uuid::from_u128` (the number's big-endian bytes) followed by `to_string` (the lowercase
/// hyphenated form). Claims that the result is that text of the number.
#[verifier::external_body]
pub fn format_uuid(id: u128) -> (r: String)
    ensures
        r@ == uuid_text(id),
{
    uuid::Uuid::from_u128(id).to_string()
}

} // verus!
