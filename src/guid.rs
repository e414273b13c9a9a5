//! The canonical text of a 128-bit GUID.
use vstd::prelude::*;
use vstd::arithmetic::power::pow;

verus! {

/// The upper-case hexadecimal digit for a value below 16.
pub open spec fn hex_digit(d: int) -> char {
    if d < 10 {
        (d + 48) as char
    } else {
        (d + 55) as char
    }
}

/// The `k`-th of the 32 hexadecimal digits of `v`, counted from the most
/// significant one.
pub open spec fn nibble(v: u128, k: int) -> int {
    (v as int / pow(16, (31 - k) as nat)) % 16
}

/// Whether position `p` of the canonical text holds a hyphen.
pub open spec fn is_hyphen_position(p: int) -> bool {
    p == 8 || p == 13 || p == 18 || p == 23
}

/// Which of the 32 digits stands at position `p` of the canonical text.
pub open spec fn digit_at(p: int) -> int {
    if p < 8 {
        p
    } else if p < 13 {
        p - 1
    } else if p < 18 {
        p - 2
    } else if p < 23 {
        p - 3
    } else {
        p - 4
    }
}

/// The canonical text of a GUID: its 32 hexadecimal digits, most
/// significant first, in upper case, grouped 8-4-4-4-12 by hyphens.
pub open spec fn guid_text(v: u128) -> Seq<char> {
    Seq::new(
        36,
        |p: int|
            if is_hyphen_position(p) {
                '-'
            } else {
                hex_digit(nibble(v, digit_at(p)))
            },
    )
}

/// Relies on uuid's `Uuid::from_u128`, which takes the value as big-endian
/// bytes, and `Hyphenated::encode_upper`, which writes those bytes as
/// upper-case hexadecimal grouped 8-4-4-4-12.
#[verifier::external_body]
pub(crate) fn upper_hyphenated(v: u128) -> (r: String)
    ensures
        r@ == guid_text(v),
{
    let mut buf = uuid::Uuid::encode_buffer();
    uuid::Uuid::from_u128(v).to_hyphenated().encode_upper(&mut buf).to_string()
}

} // verus!
