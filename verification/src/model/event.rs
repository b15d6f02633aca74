//! The events that the ledger is asked to process.

use super::transaction::TransactionKind;
use super::{ClientID, TransactionID};
use crate::amount::Amount;
use vstd::prelude::*;

verus! {

/// The three steps of the dispute lifecycle.
#[derive(Clone, Copy, Debug, PartialEq, Eq, Structural)]
pub enum DisputeStepKind {
    Dispute,
    Resolve,
    Chargeback,
}

/// An event that asks for processing. It may yet be rejected.
#[derive(Clone, Copy, Debug, PartialEq, Eq)]
#[allow(inconsistent_fields)]
pub enum Event {
    /// A deposit or a withdrawal: it moves money and, once accepted, leaves a
    /// transaction record.
    Transaction {
        kind: TransactionKind,
        transaction_id: TransactionID,
        client_id: ClientID,
        amount: Amount,
    },
    /// A step in the dispute of an earlier transaction.
    DisputeStep { kind: DisputeStepKind, transaction_id: TransactionID, client_id: ClientID },
}

impl Event {
    /// The identifier that the event carries: that of the transaction it
    /// asks for, or that of the transaction it disputes.
    pub open spec fn id(self) -> TransactionID {
        match self {
            Event::Transaction { transaction_id, .. } => transaction_id,
            Event::DisputeStep { transaction_id, .. } => transaction_id,
        }
    }

    /// The client that the event comes from.
    pub open spec fn client(self) -> ClientID {
        match self {
            Event::Transaction { client_id, .. } => client_id,
            Event::DisputeStep { client_id, .. } => client_id,
        }
    }

    /// The amount that a deposit or a withdrawal moves.
    pub open spec fn amount(self) -> Amount
        recommends
            self is Transaction,
    {
        match self {
            Event::Transaction { amount, .. } => amount,
            Event::DisputeStep { .. } => Amount::zero(),
        }
    }
}

} // verus!
