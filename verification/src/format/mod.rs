//! The values that stand between the ledger and its file formats.

pub mod csv;
