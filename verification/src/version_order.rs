//! The order of version strings as a `std::cmp::Ordering`.

use crate::version::{numbers_of, order_of_numbers, version_order};
use std::cmp::Ordering;
use vstd::prelude::*;

verus! {

/// Compares two version strings by their numbers.
///
/// The dot-separated parts that write a number are compared in order; the
/// first difference decides. When one version's numbers are a prefix of the
/// other's, the shorter one is the smaller.
pub fn compare_versions(a: &str, b: &str) -> (order: Ordering)
    ensures
        order == Ordering::Less <==> version_order(a@, b@) < 0,
        order == Ordering::Greater <==> version_order(a@, b@) > 0,
        order == Ordering::Equal <==> version_order(a@, b@) == 0,
{
    let a_parts = numbers_of(a);
    let b_parts = numbers_of(b);
    let sign = order_of_numbers(&a_parts, &b_parts);
    if sign < 0 {
        Ordering::Less
    } else if sign > 0 {
        Ordering::Greater
    } else {
        Ordering::Equal
    }
}

} // verus!
