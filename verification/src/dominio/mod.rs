//! Trading domain vocabulary: value objects and order entities.

use vstd::prelude::*;

pub mod entities;
pub mod value_objects;

verus! {

/// Sum of two unsigned amounts that together fit in 64 bits.
pub fn add(left: u64, right: u64) -> (sum: u64)
    requires
        left + right <= u64::MAX,
    ensures
        sum == left + right,
{
    left + right
}

/// Sum of two unsigned amounts, or `None` where it does not fit in 64 bits.
pub fn checked_add(left: u64, right: u64) -> (sum: Option<u64>)
    ensures
        sum is Some <==> left + right <= u64::MAX,
        sum matches Some(s) ==> s == left + right,
{
    if left <= u64::MAX - right {
        Some(self::add(left, right))
    } else {
        None
    }
}

} // verus!
