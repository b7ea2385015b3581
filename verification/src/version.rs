//! Resource versions and the rule for combining two of them.
//!
//! A resource version is an opaque token that a server hands out. Most
//! servers use a growing counter written in base 10, and some redeliver old
//! notifications, so two versions that both read as numbers are combined by
//! taking the larger one. Any other version is kept as it arrived.

use crate::decimal::{decimal_digits, decimal_u32, format_u32, lemma_read_back, parse_u32};
use vstd::prelude::*;

verus! {

/// The version that asks a server for everything it currently holds.
pub open spec fn zero_version() -> Seq<char> {
    seq!['0']
}

/// The larger of two numbers.
pub open spec fn larger(a: u32, b: u32) -> u32 {
    if a >= b {
        a
    } else {
        b
    }
}

/// The version to keep once `incoming` has been seen while `current` was
/// stored.
pub open spec fn merged(current: Seq<char>, incoming: Seq<char>) -> Seq<char> {
    match (decimal_u32(incoming), decimal_u32(current)) {
        (Some(n), Some(c)) => decimal_digits(larger(n, c) as nat),
        _ => incoming,
    }
}

/// The version `"0"`.
pub fn zero() -> (v: String)
    ensures
        v@ == zero_version(),
{
    let mut v = String::new();
    v.push('0');
    v
}

/// Combines the stored version with one that has just been seen.
pub fn merge_versions(current: &str, incoming: &str) -> (kept: String)
    ensures
        kept@ == merged(current@, incoming@),
{
    match (parse_u32(incoming), parse_u32(current)) {
        (Some(n), Some(c)) => {
            if n >= c {
                format_u32(n)
            } else {
                format_u32(c)
            }
        },
        _ => incoming.to_string(),
    }
}

/// The zero version reads as the number zero.
pub proof fn lemma_zero_is_numeric()
    ensures
        decimal_u32(zero_version()) == Some(0u32),
        zero_version() == decimal_digits(0),
{
    lemma_read_back(0);
}

/// Two versions that read as numbers combine to the larger number, written
/// without sign or leading zeros.
pub proof fn lemma_merged_numeric(current: Seq<char>, incoming: Seq<char>)
    requires
        decimal_u32(current) is Some,
        decimal_u32(incoming) is Some,
    ensures
        merged(current, incoming) == decimal_digits(
            larger(decimal_u32(incoming)->0, decimal_u32(current)->0) as nat,
        ),
        decimal_u32(merged(current, incoming)) == Some(
            larger(decimal_u32(incoming)->0, decimal_u32(current)->0),
        ),
        decimal_u32(merged(current, incoming))->0 >= decimal_u32(current)->0,
        decimal_u32(merged(current, incoming))->0 >= decimal_u32(incoming)->0,
{
    lemma_read_back(larger(decimal_u32(incoming)->0, decimal_u32(current)->0));
}

/// When either side does not read as a number, the incoming version is kept
/// as it is.
pub proof fn lemma_merged_opaque(current: Seq<char>, incoming: Seq<char>)
    requires
        decimal_u32(current) is None || decimal_u32(incoming) is None,
    ensures
        merged(current, incoming) == incoming,
{
}

} // verus!
