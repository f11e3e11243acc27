//! Identifiers of tasks and artifacts: random UUIDs from the `uuid` crate,
//! held as their 128 bits.
use vstd::prelude::*;

verus! {

/// The lower-case hexadecimal digit for `d`, which is below sixteen.
pub open spec fn hex_digit(d: u128) -> char {
    (if d < 10 {
        d + 48
    } else {
        d + 87
    }) as char
}

/// The `k`-th group of four bits of `bits`, counted from the most significant.
pub open spec fn nibble(bits: u128, k: int) -> u128 {
    (bits >> ((124 - 4 * k) as u128)) & 0xfu128
}

/// The group of four bits that the character at position `i` of a UUID's
/// text shows, the hyphens at 8, 13, 18 and 23 left out.
pub open spec fn nibble_at(i: int) -> int {
    if i < 8 {
        i
    } else if i < 13 {
        i - 1
    } else if i < 18 {
        i - 2
    } else if i < 23 {
        i - 3
    } else {
        i - 4
    }
}

/// The hyphenated lower-case text of the UUID whose 128 bits are `bits`:
/// 32 hexadecimal digits, most significant first, in groups of 8, 4, 4, 4
/// and 12 joined by hyphens.
pub open spec fn uuid_text(bits: u128) -> Seq<char> {
    Seq::new(
        36,
        |i: int|
            if i == 8 || i == 13 || i == 18 || i == 23 {
                '-'
            } else {
                hex_digit(nibble(bits, nibble_at(i)))
            },
    )
}

/// The version of a UUID: the four bits that the sixth byte's high half holds.
pub open spec fn uuid_version(bits: u128) -> u128 {
    (bits >> 76u128) & 0xfu128
}

/// A fresh random UUID from `uuid::Uuid::new_v4`, as its 128 bits
/// (`Uuid::as_u128`). Claimed: its version is 4, which `new_v4` sets by masking
/// the random bits. The rest is random and not stated.
#[verifier::external_body]
pub(crate) fn new_id() -> (r: u128)
    ensures
        uuid_version(r) == 4,
{
    uuid::Uuid::new_v4().as_u128()
}

/// The text of the UUID with the 128 bits `bits` (`Uuid::from_u128`, then
/// `to_string`, which `Display` writes in the hyphenated lower-case form).
/// Claimed: it is `uuid_text(bits)`.
#[verifier::external_body]
pub(crate) fn id_text(bits: u128) -> (r: String)
    ensures
        r@ == uuid_text(bits),
{
    uuid::Uuid::from_u128(bits).to_string()
}

} // verus!
