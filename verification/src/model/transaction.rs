//! Transaction records and their dispute lifecycle.

use super::ClientID;
use crate::amount::Amount;
use crate::error::{InvalidTransition, ProcessError};
use vstd::prelude::*;

verus! {

/// Whether a transaction brought money in or took it out.
#[derive(Clone, Copy, Debug, PartialEq, Eq, Structural)]
pub enum TransactionKind {
    Deposit,
    Withdrawal,
}

/// Where a transaction stands in the dispute lifecycle.
#[derive(Clone, Copy, Debug, PartialEq, Eq, Structural)]
pub enum DisputeStatus {
    /// Not under dispute: never disputed, or the last dispute was resolved.
    Undisputed,
    /// Under dispute.
    Disputed,
    /// Charged back. This is final.
    ChargedBack,
}

/// A transfer of money, either a deposit or a withdrawal, as it was accepted.
/// Disputes act on transactions; they are not transactions themselves.
#[derive(Clone, Copy, Debug)]
pub struct Transaction {
    pub client_id: ClientID,
    pub amount: Amount,
    pub kind: TransactionKind,
    pub dispute_status: DisputeStatus,
}

/// The legal moves of the dispute lifecycle: a dispute opens on an undisputed
/// transaction, and a disputed one is either resolved or charged back.
pub open spec fn legal_transition(from: DisputeStatus, to: DisputeStatus) -> bool {
    ||| from == DisputeStatus::Undisputed && to == DisputeStatus::Disputed
    ||| from == DisputeStatus::Disputed && to == DisputeStatus::Undisputed
    ||| from == DisputeStatus::Disputed && to == DisputeStatus::ChargedBack
}

/// What is wrong with an illegal move away from `from`.
pub open spec fn transition_refusal(from: DisputeStatus) -> InvalidTransition {
    match from {
        DisputeStatus::Undisputed => InvalidTransition::NotDisputed,
        DisputeStatus::Disputed => InvalidTransition::AlreadyDisputed,
        DisputeStatus::ChargedBack => InvalidTransition::AlreadyChargedBack,
    }
}

/// The verdict on a move of the dispute status from `from` to `to`.
pub open spec fn transition_verdict(from: DisputeStatus, to: DisputeStatus) -> Result<
    (),
    ProcessError,
> {
    if legal_transition(from, to) {
        Ok(())
    } else {
        Err(ProcessError::InvalidDisputeTransition { reason: transition_refusal(from) })
    }
}

impl Transaction {
    /// The record of a freshly accepted transaction: undisputed.
    pub open spec fn spec_new(client_id: ClientID, amount: Amount, kind: TransactionKind) -> Self {
        Transaction { client_id, amount, kind, dispute_status: DisputeStatus::Undisputed }
    }

    /// This record with another dispute status.
    pub open spec fn with_status(self, dispute_status: DisputeStatus) -> Self {
        Transaction { dispute_status, ..self }
    }

    #[verifier::when_used_as_spec(spec_new)]
    pub fn new(client_id: ClientID, amount: Amount, kind: TransactionKind) -> (t: Self)
        ensures
            t == Transaction::new(client_id, amount, kind),
    {
        Transaction { client_id, amount, kind, dispute_status: DisputeStatus::Undisputed }
    }

    pub fn client_id(&self) -> (id: ClientID)
        ensures
            id == self.client_id,
    {
        self.client_id
    }

    pub fn amount(&self) -> (amount: Amount)
        ensures
            amount == self.amount,
    {
        self.amount
    }

    pub fn kind(&self) -> (kind: &TransactionKind)
        ensures
            *kind == self.kind,
    {
        &self.kind
    }

    pub fn dispute_status(&self) -> (status: &DisputeStatus)
        ensures
            *status == self.dispute_status,
    {
        &self.dispute_status
    }

    pub fn is_under_dispute(&self) -> (disputed: bool)
        ensures
            disputed == (self.dispute_status == DisputeStatus::Disputed),
    {
        matches!(self.dispute_status, DisputeStatus::Disputed)
    }

    /// Sets the dispute status and leaves the rest of the record alone. It
    /// does not ask whether the move is legal: see
    /// [`Transaction::validate_dispute_status_transition`].
    pub fn set_dispute_status(&mut self, dispute_status: DisputeStatus)
        ensures
            *final(self) == old(self).with_status(dispute_status),
    {
        self.dispute_status = dispute_status;
    }

    /// Says whether the dispute status may move to `new_dispute_status`, and
    /// if not, why. Nothing is changed.
    pub fn validate_dispute_status_transition(&self, new_dispute_status: DisputeStatus) -> (res:
        Result<(), ProcessError>)
        ensures
            res == transition_verdict(self.dispute_status, new_dispute_status),
    {
        match (self.dispute_status, new_dispute_status) {
            (DisputeStatus::Undisputed, DisputeStatus::Disputed)
            | (DisputeStatus::Disputed, DisputeStatus::Undisputed)
            | (DisputeStatus::Disputed, DisputeStatus::ChargedBack) => Ok(()),
            (DisputeStatus::ChargedBack, _) => Err(
                ProcessError::InvalidDisputeTransition {
                    reason: InvalidTransition::AlreadyChargedBack,
                },
            ),
            (DisputeStatus::Undisputed, _) => Err(
                ProcessError::InvalidDisputeTransition { reason: InvalidTransition::NotDisputed },
            ),
            (DisputeStatus::Disputed, DisputeStatus::Disputed) => Err(
                ProcessError::InvalidDisputeTransition {
                    reason: InvalidTransition::AlreadyDisputed,
                },
            ),
        }
    }
}

} // verus!
