//! The text form of an item's UUID key.

use vstd::prelude::*;

verus! {

/// The lowercase hexadecimal digit for a value below 16.
pub open spec fn hex_digit(n: int) -> char {
    if n < 10 {
        (('0' as int) + n) as char
    } else {
        (('a' as int) + n - 10) as char
    }
}

/// The `k`-th of the 32 hexadecimal digits of `v`, most significant first.
pub open spec fn nibble(v: u128, k: int) -> int {
    ((v as int) / vstd::arithmetic::power::pow(16, (31 - k) as nat)) % 16
}

/// Where the digit shown at position `i` of the hyphenated text comes from.
pub open spec fn digit_index(i: int) -> int {
    if i < 8 {
        i
    } else if i < 13 {
        i - 1
    } else if i < 18 {
        i - 2
    } else if i < 23 {
        i - 3
    } else {
        i - 4
    }
}

/// The hyphenated text of a UUID: 36 characters, hyphens at positions 8, 13,
/// 18 and 23, the 32 lowercase hexadecimal digits of its 128 bits elsewhere,
/// most significant first.
pub open spec fn hyphenated_text(v: u128) -> Seq<char> {
    Seq::new(
        36,
        |i: int|
            if i == 8 || i == 13 || i == 18 || i == 23 {
                '-'
            } else {
                hex_digit(nibble(v, digit_index(i)))
            },
    )
}

/// Formats the UUID with these 128 bits through `uuid::Uuid::from_u128` and
/// its `Display` (`to_string`). The contract claims what the `uuid` crate
/// documents and its `format_hyphenated` does: the lowercase hyphenated form.
#[verifier::external_body]
pub(crate) fn uuid_to_string(v: u128) -> (r: String)
    ensures
        r@ == hyphenated_text(v),
{
    uuid::Uuid::from_u128(v).to_string()
}

} // verus!
