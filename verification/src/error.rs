//! Why an event was rejected.

use crate::model::transaction::TransactionKind;
use crate::model::{ClientID, TransactionID};
use crate::text::{decimal_string, decimal_text};
use vstd::prelude::*;
use vstd::string::StringExecFns;

verus! {

/// Why a dispute step does not fit the dispute status of its transaction.
#[derive(Clone, Copy, Debug, PartialEq, Eq, Structural)]
pub enum InvalidTransition {
    /// A dispute was opened on a transaction that is under dispute already.
    AlreadyDisputed,
    /// The transaction was charged back; nothing more can happen to it.
    AlreadyChargedBack,
    /// A resolve or a chargeback came for a transaction that is not disputed.
    NotDisputed,
}

/// Why an event was rejected. A rejected event is recorded and the run goes
/// on with the next one.
#[derive(Clone, Copy, Debug, PartialEq, Eq, Structural)]
pub enum ProcessError {
    /// The account is locked and takes no deposit or withdrawal of this kind.
    AccountLocked { kind: TransactionKind },
    /// The withdrawal asks for more than the account has available.
    InsufficientFunds,
    /// A deposit or withdrawal reused the identifier of an earlier one.
    DuplicateTransaction { transaction_id: TransactionID },
    /// A dispute step names a transaction that was never recorded.
    TransactionNotFound { transaction_id: TransactionID },
    /// The client that a recorded transaction belongs to has no account.
    ClientNotFound { client_id: ClientID },
    /// A dispute step came from a client other than the transaction's owner.
    ClientMismatch { client_id: ClientID, owner_id: ClientID },
    /// The dispute step does not fit the transaction's dispute status.
    InvalidDisputeTransition { reason: InvalidTransition },
    /// A balance would leave the range of decimal amounts.
    AmountOverflow,
}

impl ProcessError {
    /// The line of text that describes this rejection.
    pub open spec fn message_text(self) -> Seq<char> {
        match self {
            ProcessError::AccountLocked { kind: TransactionKind::Deposit } =>
                "Cannot deposit when account is locked."@,
            ProcessError::AccountLocked { kind: TransactionKind::Withdrawal } =>
                "Cannot withdraw when account is locked."@,
            ProcessError::InsufficientFunds => "Insufficient funds."@,
            ProcessError::DuplicateTransaction { transaction_id } =>
                "Transaction already exists with id "@ + decimal_text(transaction_id as nat) + "."@,
            ProcessError::TransactionNotFound { transaction_id } =>
                "Transaction "@ + decimal_text(transaction_id as nat) + " not found."@,
            ProcessError::ClientNotFound { client_id } =>
                "Client "@ + decimal_text(client_id as nat) + " does not exist."@,
            ProcessError::ClientMismatch { client_id, owner_id } =>
                "Client id "@ + decimal_text(client_id as nat)
                    + " does not match transaction client id "@ + decimal_text(owner_id as nat)
                    + "."@,
            ProcessError::InvalidDisputeTransition { reason: InvalidTransition::AlreadyDisputed } =>
                "Transaction is already disputed."@,
            ProcessError::InvalidDisputeTransition {
                reason: InvalidTransition::AlreadyChargedBack,
            } => "Transaction has already been charged back."@,
            ProcessError::InvalidDisputeTransition { reason: InvalidTransition::NotDisputed } =>
                "Transaction is not disputed."@,
            ProcessError::AmountOverflow => "Amount out of range."@,
        }
    }

    /// Renders the rejection as one line of text, without a line end.
    pub fn message(&self) -> (s: String)
        ensures
            s@ == self.message_text(),
    {
        match self {
            ProcessError::AccountLocked { kind: TransactionKind::Deposit } => String::from_str(
                "Cannot deposit when account is locked.",
            ),
            ProcessError::AccountLocked { kind: TransactionKind::Withdrawal } => String::from_str(
                "Cannot withdraw when account is locked.",
            ),
            ProcessError::InsufficientFunds => String::from_str("Insufficient funds."),
            ProcessError::DuplicateTransaction { transaction_id } => {
                let mut s = String::from_str("Transaction already exists with id ");
                let id: u64 = *transaction_id as u64;
                s.append(decimal_string(id).as_str());
                s.append(".");
                s
            },
            ProcessError::TransactionNotFound { transaction_id } => {
                let mut s = String::from_str("Transaction ");
                let id: u64 = *transaction_id as u64;
                s.append(decimal_string(id).as_str());
                s.append(" not found.");
                s
            },
            ProcessError::ClientNotFound { client_id } => {
                let mut s = String::from_str("Client ");
                let id: u64 = *client_id as u64;
                s.append(decimal_string(id).as_str());
                s.append(" does not exist.");
                s
            },
            ProcessError::ClientMismatch { client_id, owner_id } => {
                let mut s = String::from_str("Client id ");
                let id: u64 = *client_id as u64;
                let owner: u64 = *owner_id as u64;
                s.append(decimal_string(id).as_str());
                s.append(" does not match transaction client id ");
                s.append(decimal_string(owner).as_str());
                s.append(".");
                s
            },
            ProcessError::InvalidDisputeTransition { reason: InvalidTransition::AlreadyDisputed } =>
                String::from_str("Transaction is already disputed."),
            ProcessError::InvalidDisputeTransition {
                reason: InvalidTransition::AlreadyChargedBack,
            } => String::from_str("Transaction has already been charged back."),
            ProcessError::InvalidDisputeTransition { reason: InvalidTransition::NotDisputed } =>
                String::from_str("Transaction is not disputed."),
            ProcessError::AmountOverflow => String::from_str("Amount out of range."),
        }
    }
}

} // verus!
