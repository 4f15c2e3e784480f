//! Validation of the state transitions of a time index cell: a ledger record
//! that carries a counter cycling through a fixed number of positions.
//!
//! A transaction either creates the record or updates it. [`validate::validate`]
//! tells the two apart and decides, from the transaction alone, whether the
//! step is legal:
//!
//! - [`record`] reads and writes the two-byte payload;
//! - [`cardinality`] counts and finds the entries that carry the record;
//! - [`identity`] checks the tag that binds a record to where it was created;
//! - [`transition`] holds the rule by which the counter moves;
//! - [`transaction`] is the snapshot that all of them read;
//! - [`error`] names the kinds of rejection.

pub mod cardinality;
pub mod error;
pub mod identity;
pub mod record;
pub mod transaction;
pub mod transition;
pub mod validate;
