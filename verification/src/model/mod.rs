//! The entities of the ledger: client accounts, transactions and the events
//! that act on them.

pub mod client;
pub mod event;
pub mod transaction;

pub use client::Client;
pub use event::{DisputeStepKind, Event};
pub use transaction::{DisputeStatus, Transaction, TransactionKind};

use vstd::prelude::*;

verus! {

/// Identifies a client account.
pub type ClientID = u16;

/// Identifies a deposit or a withdrawal; unique over a run.
pub type TransactionID = u32;

} // verus!
