//! An atomic two-party asset swap: one party locks an amount of asset X in a
//! program-controlled custody account, a counterparty later supplies asset Y,
//! and settlement either performs both transfers and closes the escrow, or
//! changes nothing at all.
//!
//! The crate is organised leaf-first:
//! - [`bytes`] holds the fixed-width little-endian codec primitives;
//! - [`error`] holds the closed error taxonomy;
//! - [`instruction`] decodes and encodes the three wire operations;
//! - [`state`] is the persisted escrow record and its byte layout;
//! - [`accounts`] models the accounts an operation touches as plain values;
//! - [`authority`] derives the custody authority address;
//! - [`processor`] validates, settles and cancels escrows.
use vstd::prelude::*;

pub mod accounts;
pub mod authority;
pub mod bytes;
pub mod error;
pub mod instruction;
pub mod processor;
pub mod state;

verus! {

/// Number of bytes in an account address and in the per-escrow secret.
pub const KEY_LEN: usize = 32;

} // verus!
