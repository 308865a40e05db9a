//! The store itself: one optional 32-bit sum, its mathematical model, and the
//! two operations on it.

use vstd::prelude::*;
use crate::access::{Role, SumError};

verus! {

/// The sum of `a` and `b` in 32-bit two's complement arithmetic: the exact sum
/// where it fits in an `i32`, and otherwise the exact sum moved by 2^32 back
/// into range.
pub open spec fn wrapping_sum(a: i32, b: i32) -> i32 {
    let exact = a + b;
    if exact > i32::MAX {
        (exact - 0x1_0000_0000) as i32
    } else if exact < i32::MIN {
        (exact + 0x1_0000_0000) as i32
    } else {
        exact as i32
    }
}

/// What a caller with `role` is answered when it asks for a write.
pub open spec fn write_result(role: Role) -> Result<(), SumError> {
    if role.may_write() {
        Ok(())
    } else {
        Err(SumError::NotAuthorized)
    }
}

/// What the store holds after a caller with `role` asked to write the sum of
/// `a` and `b` into a store that held `before`.
pub open spec fn write_state(before: Option<i32>, a: i32, b: i32, role: Role) -> Option<i32> {
    if role.may_write() {
        Some(wrapping_sum(a, b))
    } else {
        before
    }
}

/// Holds at most one sum: the one most recently written by an administrator.
#[derive(Debug)]
pub struct SumStore {
    stored_sum: Option<i32>,
}

impl View for SumStore {
    type V = Option<i32>;

    /// The sum last written, or `None` while nothing has been written.
    closed spec fn view(&self) -> Option<i32> {
        self.stored_sum
    }
}

impl SumStore {
    /// Creates a store that holds no sum.
    pub fn new() -> (s: Self)
        ensures
            s@ is None,
    {
        Self { stored_sum: None }
    }

    /// Stores the wrapping sum of `a` and `b`, replacing what was stored, if
    /// `role` may write. Otherwise leaves the store as it was and returns
    /// `NotAuthorized`.
    pub fn set_sum(&mut self, a: i32, b: i32, role: Role) -> (r: Result<(), SumError>)
        ensures
            r == write_result(role),
            final(self)@ == write_state(old(self)@, a, b, role),
    {
        if role != Role::Admin {
            return Err(SumError::NotAuthorized);
        }
        self.stored_sum = Some(a.wrapping_add(b));
        Ok(())
    }

    /// Returns the stored sum. Takes no role: anyone may read.
    #[must_use]
    pub fn get_sum(&self) -> (r: Option<i32>)
        ensures
            r == self@,
    {
        self.stored_sum
    }
}

impl Default for SumStore {
    /// The default store holds no sum, like a new one.
    fn default() -> (s: Self)
        ensures
            s@ is None,
    {
        Self::new()
    }
}

} // verus!
