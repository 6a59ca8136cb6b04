//! Numbers of the language: IEEE-754 binary64 values held by their bit
//! pattern. The arithmetic itself is done by `rustc_apfloat`; this module
//! gives each operation a name that contracts can speak of.

use rustc_apfloat::ieee::Double;
use rustc_apfloat::Float;
use std::cmp::Ordering;
use vstd::prelude::*;

verus! {

/// A binary64 value, identified by its 64 bits.
#[derive(Debug, Clone, Copy, PartialEq, Eq, Structural)]
pub struct Number {
    pub bits: u64,
}

/// The binary64 value that a decimal literal denotes, rounded to nearest
/// (ties to even), or `None` where the text is no number.
pub uninterp spec fn double_of_text(text: Seq<char>) -> Option<u64>;

/// The rounded sum of two binary64 values.
pub uninterp spec fn double_sum(a: u64, b: u64) -> u64;

/// The rounded difference of two binary64 values.
pub uninterp spec fn double_difference(a: u64, b: u64) -> u64;

/// The rounded product of two binary64 values.
pub uninterp spec fn double_product(a: u64, b: u64) -> u64;

/// The rounded quotient of two binary64 values.
pub uninterp spec fn double_quotient(a: u64, b: u64) -> u64;

/// How two binary64 values compare: `-1`, `0` or `1` where the first is
/// less than, equal to or greater than the second, and `2` where they are
/// unordered (one of them is a NaN).
pub uninterp spec fn double_order(a: u64, b: u64) -> i8;

/// The binary64 value nearest to a count.
pub uninterp spec fn double_of_count(n: usize) -> u64;

/// The integer part of a binary64 value as an unsigned 64-bit number:
/// truncated toward zero and clamped to the range of `u64`, zero for a NaN.
pub uninterp spec fn double_index(a: u64) -> u64;

/// The decimal text of a binary64 value.
pub uninterp spec fn double_text(a: u64) -> Seq<char>;

/// Reads a decimal literal with `rustc_apfloat`'s `FromStr` for `Double`
/// (round to nearest, ties to even). `None` where that parser rejects the
/// text.
#[verifier::external_body]
pub(crate) fn double_parse(text: &str) -> (r: Option<u64>)
    ensures
        r == double_of_text(text@),
{
    text.parse::<Double>().ok().map(|d| d.to_bits() as u64)
}

/// `Double::add` of `rustc_apfloat`: the sum, rounded to nearest.
#[verifier::external_body]
pub(crate) fn double_add(a: u64, b: u64) -> (r: u64)
    ensures
        r == double_sum(a, b),
{
    (Double::from_bits(u128::from(a)) + Double::from_bits(u128::from(b))).value.to_bits() as u64
}

/// `Double::sub` of `rustc_apfloat`: the difference, rounded to nearest.
#[verifier::external_body]
pub(crate) fn double_sub(a: u64, b: u64) -> (r: u64)
    ensures
        r == double_difference(a, b),
{
    (Double::from_bits(u128::from(a)) - Double::from_bits(u128::from(b))).value.to_bits() as u64
}

/// `Double::mul` of `rustc_apfloat`: the product, rounded to nearest.
#[verifier::external_body]
pub(crate) fn double_mul(a: u64, b: u64) -> (r: u64)
    ensures
        r == double_product(a, b),
{
    (Double::from_bits(u128::from(a)) * Double::from_bits(u128::from(b))).value.to_bits() as u64
}

/// `Double::div` of `rustc_apfloat`: the quotient, rounded to nearest.
#[verifier::external_body]
pub(crate) fn double_div(a: u64, b: u64) -> (r: u64)
    ensures
        r == double_quotient(a, b),
{
    (Double::from_bits(u128::from(a)) / Double::from_bits(u128::from(b))).value.to_bits() as u64
}

/// `Double::partial_cmp` of `rustc_apfloat`, with its four outcomes told
/// apart as `-1`, `0`, `1` and `2` (unordered).
#[verifier::external_body]
pub(crate) fn double_compare(a: u64, b: u64) -> (r: i8)
    ensures
        r == double_order(a, b),
{
    match Double::from_bits(u128::from(a)).partial_cmp(&Double::from_bits(u128::from(b))) {
        Some(Ordering::Less) => -1,
        Some(Ordering::Equal) => 0,
        Some(Ordering::Greater) => 1,
        None => 2,
    }
}

/// `Double::from_u128` of `rustc_apfloat`: the value nearest to `n`.
#[verifier::external_body]
pub(crate) fn double_from_count(n: usize) -> (r: u64)
    ensures
        r == double_of_count(n),
{
    Double::from_u128(n as u128).value.to_bits() as u64
}

/// `Double::to_u128` of `rustc_apfloat` at a width of 64 bits: the value
/// truncated toward zero, clamped to `0..=u64::MAX`, zero for a NaN.
#[verifier::external_body]
pub(crate) fn double_to_index(a: u64) -> (r: u64)
    ensures
        r == double_index(a),
{
    Double::from_bits(u128::from(a)).to_u128(64).value as u64
}

/// The `Display` text that `rustc_apfloat` gives a `Double`.
#[verifier::external_body]
pub(crate) fn double_to_text(a: u64) -> (r: String)
    ensures
        r@ == double_text(a),
{
    format!("{}", Double::from_bits(u128::from(a)))
}

} // verus!
