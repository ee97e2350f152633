//! The two canonical textual forms of a 128-bit identifier.

use vstd::prelude::*;

verus! {

/// The lowercase hexadecimal digit for a value in `0..16`.
pub open spec fn hex_digit(d: int) -> char {
    seq!['0', '1', '2', '3', '4', '5', '6', '7', '8', '9', 'a', 'b', 'c', 'd', 'e', 'f'][d]
}

/// The `i`-th hexadecimal digit of `v`, counting from the most significant one.
pub open spec fn nibble(v: u128, i: int) -> int {
    (v as int / vstd::arithmetic::power::pow(16, (31 - i) as nat)) % 16
}

/// Compact form: 32 lowercase hex digits, most significant first.
pub open spec fn compact_form(v: u128) -> Seq<char> {
    Seq::new(32, |i: int| hex_digit(nibble(v, i)))
}

/// Hyphenated form: the compact digits grouped 8-4-4-4-12.
pub open spec fn hyphenated_form(v: u128) -> Seq<char> {
    let c = compact_form(v);
    c.subrange(0, 8) + seq!['-'] + c.subrange(8, 12) + seq!['-'] + c.subrange(12, 16) + seq!['-']
        + c.subrange(16, 20) + seq!['-'] + c.subrange(20, 32)
}

/// Relies on uuid's `Uuid::from_u128(v).simple()` formatter: the big-endian
/// value as 32 lowercase hex digits.
#[verifier::external_body]
pub(crate) fn compact_string(v: u128) -> (r: String)
    ensures
        r@ == compact_form(v),
{
    uuid::Uuid::from_u128(v).simple().to_string()
}

/// Relies on uuid's `Uuid::from_u128(v).hyphenated()` formatter: the
/// 8-4-4-4-12 grouping of the lowercase hex digits.
#[verifier::external_body]
pub(crate) fn hyphenated_string(v: u128) -> (r: String)
    ensures
        r@ == hyphenated_form(v),
{
    uuid::Uuid::from_u128(v).hyphenated().to_string()
}

} // verus!
