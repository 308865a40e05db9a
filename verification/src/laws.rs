//! What holds of every store, whatever it holds and whatever is written to it.
//!
//! Each law is stated over the model that the contracts of `SumStore` use:
//! the store's view, `write_result` and `write_state`.

use vstd::prelude::*;
use crate::access::{Role, SumError};
use crate::store::{wrapping_sum, write_result, write_state, SumStore};

verus! {

/// Where the exact sum of `a` and `b` fits in an `i32`, the wrapping sum is
/// that exact sum.
pub proof fn lemma_wrapping_sum_exact(a: i32, b: i32)
    requires
        i32::MIN <= a + b <= i32::MAX,
    ensures
        wrapping_sum(a, b) == a + b,
{
}

/// Where the exact sum of `a` and `b` lies above the range of `i32`, the
/// wrapping sum is 2^32 less than it; where it lies below, 2^32 more.
pub proof fn lemma_wrapping_sum_wraps_once(a: i32, b: i32)
    ensures
        a + b > i32::MAX ==> wrapping_sum(a, b) == a + b - 0x1_0000_0000,
        a + b < i32::MIN ==> wrapping_sum(a, b) == a + b + 0x1_0000_0000,
{
}

/// An administrator's write always succeeds, whatever the store held, and
/// leaves the wrapping sum of the two numbers in it: their exact sum where
/// that fits in an `i32`.
pub proof fn lemma_admin_write_stores_sum(before: Option<i32>, a: i32, b: i32)
    ensures
        write_result(Role::Admin) == Ok::<(), SumError>(()),
        write_state(before, a, b, Role::Admin) == Some(wrapping_sum(a, b)),
        i32::MIN <= a + b <= i32::MAX ==> write_state(before, a, b, Role::Admin) == Some(
            (a + b) as i32,
        ),
{
}

/// A write by any role but `Admin` fails with `NotAuthorized` and leaves the
/// store holding what it held before.
pub proof fn lemma_refused_write_changes_nothing(before: Option<i32>, a: i32, b: i32, role: Role)
    requires
        role != Role::Admin,
    ensures
        write_result(role) == Err::<(), SumError>(SumError::NotAuthorized),
        write_state(before, a, b, role) == before,
{
}

/// Reading is repeatable: every read of a store returns its view, so two reads
/// with no write between them return the same value.
pub proof fn lemma_reads_agree(s: SumStore, first: Option<i32>, second: Option<i32>)
    requires
        first == s@,
        second == s@,
    ensures
        first == second,
{
}

/// Writes overwrite and do not accumulate: after two successful writes in a
/// row the store holds the second sum alone, whatever the first one was and
/// whatever the store held before it.
pub proof fn lemma_second_write_wins(
    before: Option<i32>,
    a1: i32,
    b1: i32,
    role1: Role,
    a2: i32,
    b2: i32,
    role2: Role,
)
    requires
        write_result(role1) is Ok,
        write_result(role2) is Ok,
    ensures
        write_state(write_state(before, a1, b1, role1), a2, b2, role2) == Some(
            wrapping_sum(a2, b2),
        ),
{
}

} // verus!
