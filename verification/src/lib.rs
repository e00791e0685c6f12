//! Fail-fast validation of arguments ahead of a computation: the guard that
//! callers of an offloading cost model put in front of its formulas.
//!
//! [`with_checks`] takes arguments, one validator for each of them and a
//! computation. Its contract, in [`checks`], says which calls it makes and
//! what it returns; two laws there spell out what follows for validators
//! that are functions of their argument.

pub mod checks;
pub mod error;

pub use checks::{with_checks, Validator, LENGTH_MISMATCH};
pub use error::Error;
