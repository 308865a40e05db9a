//! A store for a single optional sum that only administrators may write and
//! that anyone may read.
//!
//! - [`access`]: the roles, the rule that says who may write, and the error
//!   of a refused write.
//! - [`store`]: the store, its model and its operations.
//! - [`laws`]: what is proved of every store and every write.

pub mod access;
pub mod laws;
pub mod store;

pub use access::{Role, SumError};
pub use store::SumStore;
