//! The engine: the ledger as a mathematical model, the processor that keeps
//! it, and a whole run over a feed of events.

pub mod ledger;
pub mod processing;
pub mod processor;

pub use ledger::Ledger;
pub use processing::{process_events, Aborted, Summary};
pub use processor::Processor;
