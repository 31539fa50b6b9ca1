//! The state logic of two small on-chain programs that each keep one
//! persisted "solved" flag in an account that the program owns.
//!
//! `setup` offers `initialize`, `solve` and `is_solved`; `contract` offers
//! `solve` and `is_solved`. The account data is held here as plain values;
//! the runtime's account plumbing converts to and from these types.
use vstd::prelude::*;

pub mod account_error;
pub mod contract;
pub mod setup;
