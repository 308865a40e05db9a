//! Roles, the rule that says which of them may write, and the error that a
//! refused write returns.

use vstd::prelude::*;

verus! {

/// The privilege level that a caller declares when it asks for a write.
#[derive(Debug, PartialEq, Eq, Structural)]
pub enum Role {
    /// May write the stored sum.
    Admin,
    /// May only read it.
    User,
}

/// Why a write was refused.
#[derive(Debug, PartialEq, Eq, Structural)]
pub enum SumError {
    /// The caller's role does not allow writing.
    NotAuthorized,
}

impl Role {
    /// The access rule: administrators may write, and nobody else.
    pub open spec fn may_write(self) -> bool {
        self is Admin
    }
}

} // verus!
