//! A payments ledger engine.
//!
//! The engine takes a sequence of events (deposits, withdrawals, and the
//! dispute, resolve and chargeback steps of the dispute lifecycle), applies
//! them one at a time to per-client accounts and to the records of the
//! accepted transactions, and yields the accounts at the end together with
//! the rejections met on the way.
//!
//! * [`amount`]: exact decimal amounts, computed by `rust_decimal`.
//! * [`model`]: client accounts, transaction records, events.
//! * [`error`]: why an event is rejected, and the text that says so.
//! * [`system`]: the ledger as a mathematical model, the processor that is
//!   proved to follow it, and a whole run over a feed of events.
//! * [`laws`]: what holds of the ledger whatever the events.
//! * [`format`]: the records of the CSV input and of the CSV report.
//! * [`text`]: decimal rendering of identifiers.

pub mod amount;
pub mod error;
pub mod format;
pub mod laws;
pub mod model;
pub mod system;
pub mod text;

pub use amount::Amount;
pub use error::{InvalidTransition, ProcessError};
pub use model::{
    Client, ClientID, DisputeStatus, DisputeStepKind, Event, Transaction, TransactionID,
    TransactionKind,
};
pub use system::{Ledger, Processor};
