//! The ledger as a mathematical model: what every event does to the accounts
//! and to the transaction records, and which events are rejected.

use crate::amount::{decimal_difference, decimal_sum, Amount};
use crate::error::ProcessError;
use crate::model::transaction::{legal_transition, transition_verdict};
use crate::model::{
    Client, ClientID, DisputeStatus, DisputeStepKind, Event, Transaction, TransactionID,
    TransactionKind,
};
use vstd::prelude::*;

verus! {

/// The state of the engine: the account of every client seen so far and the
/// record of every transaction accepted so far.
pub struct Ledger {
    pub clients: Map<ClientID, Client>,
    pub transactions: Map<TransactionID, Transaction>,
}

/// What an account answers to a deposit or a withdrawal of `amount`.
pub open spec fn transfer_verdict(client: Client, kind: TransactionKind, amount: Amount) -> Result<
    (),
    ProcessError,
> {
    if client.locked {
        Err(ProcessError::AccountLocked { kind })
    } else {
        match kind {
            TransactionKind::Deposit => if decimal_sum(client.total, amount) is None {
                Err(ProcessError::AmountOverflow)
            } else {
                Ok(())
            },
            TransactionKind::Withdrawal => if client.spec_available() is None {
                Err(ProcessError::AmountOverflow)
            } else if !client.covers(amount) {
                Err(ProcessError::InsufficientFunds)
            } else if decimal_difference(client.total, amount) is None {
                Err(ProcessError::AmountOverflow)
            } else {
                Ok(())
            },
        }
    }
}

/// The account after an accepted deposit or withdrawal of `amount`.
pub open spec fn transferred(client: Client, kind: TransactionKind, amount: Amount) -> Client {
    match kind {
        TransactionKind::Deposit => client.deposited(amount),
        TransactionKind::Withdrawal => client.withdrawn(amount),
    }
}

/// The dispute status that a dispute step leads to.
pub open spec fn target_status(step: DisputeStepKind) -> DisputeStatus {
    match step {
        DisputeStepKind::Dispute => DisputeStatus::Disputed,
        DisputeStepKind::Resolve => DisputeStatus::Undisputed,
        DisputeStepKind::Chargeback => DisputeStatus::ChargedBack,
    }
}

/// What a dispute of `transaction` puts on hold: the amount of a deposit, and
/// the negated amount of a withdrawal, whose money thus becomes available
/// again while the dispute is open.
pub open spec fn disputed_amount(transaction: Transaction) -> Amount {
    match transaction.kind {
        TransactionKind::Deposit => transaction.amount,
        TransactionKind::Withdrawal => transaction.amount.negated(),
    }
}

/// What resolving a dispute of `transaction` puts on hold: the reverse of
/// [`disputed_amount`].
pub open spec fn released_amount(transaction: Transaction) -> Amount {
    match transaction.kind {
        TransactionKind::Deposit => transaction.amount.negated(),
        TransactionKind::Withdrawal => transaction.amount,
    }
}

/// Whether the balances that a dispute step computes are in range.
pub open spec fn step_in_range(
    client: Client,
    transaction: Transaction,
    step: DisputeStepKind,
) -> bool {
    match step {
        DisputeStepKind::Dispute => client.hold_in_range(disputed_amount(transaction)),
        DisputeStepKind::Resolve => client.hold_in_range(released_amount(transaction)),
        DisputeStepKind::Chargeback => client.chargeback_in_range(disputed_amount(transaction)),
    }
}

/// The owner's account after an accepted dispute step on `transaction`.
pub open spec fn stepped(client: Client, transaction: Transaction, step: DisputeStepKind) -> Client {
    match step {
        DisputeStepKind::Dispute => client.holding(disputed_amount(transaction)),
        DisputeStepKind::Resolve => client.holding(released_amount(transaction)),
        DisputeStepKind::Chargeback => client.charged_back(disputed_amount(transaction)),
    }
}

impl Ledger {
    /// The ledger before any event.
    pub open spec fn empty() -> Ledger {
        Ledger { clients: Map::empty(), transactions: Map::empty() }
    }

    /// The account of a client; a fresh one if the client was never seen.
    pub open spec fn account(self, client_id: ClientID) -> Client {
        if self.clients.contains_key(client_id) {
            self.clients[client_id]
        } else {
            Client::new()
        }
    }

    /// This ledger, with a fresh account for the client if it had none.
    pub open spec fn with_account(self, client_id: ClientID) -> Ledger {
        if self.clients.contains_key(client_id) {
            self
        } else {
            Ledger { clients: self.clients.insert(client_id, Client::new()), ..self }
        }
    }

    /// Whether `event` is accepted, and if not, why it is rejected.
    ///
    /// A deposit or withdrawal is checked for a reused identifier first, then
    /// by the account. A dispute step is checked for its transaction, then for
    /// the owner's account, then for ownership, then against the dispute
    /// status; only then are balances computed.
    pub open spec fn outcome(self, event: Event) -> Result<(), ProcessError> {
        match event {
            Event::Transaction { kind, transaction_id, client_id, amount } => {
                if self.transactions.contains_key(transaction_id) {
                    Err(ProcessError::DuplicateTransaction { transaction_id })
                } else {
                    transfer_verdict(self.account(client_id), kind, amount)
                }
            },
            Event::DisputeStep { kind, transaction_id, client_id } => {
                if !self.transactions.contains_key(transaction_id) {
                    Err(ProcessError::TransactionNotFound { transaction_id })
                } else {
                    let transaction = self.transactions[transaction_id];
                    let owner_id = transaction.client_id;
                    if !self.clients.contains_key(owner_id) {
                        Err(ProcessError::ClientNotFound { client_id: owner_id })
                    } else if client_id != owner_id {
                        Err(ProcessError::ClientMismatch { client_id, owner_id })
                    } else if !legal_transition(transaction.dispute_status, target_status(kind)) {
                        transition_verdict(transaction.dispute_status, target_status(kind))
                    } else if !step_in_range(self.clients[owner_id], transaction, kind) {
                        Err(ProcessError::AmountOverflow)
                    } else {
                        Ok(())
                    }
                }
            },
        }
    }

    /// The ledger after a sequence of events, applied in order.
    pub open spec fn run(self, events: Seq<Event>) -> Ledger
        decreases events.len(),
    {
        if events.len() == 0 {
            self
        } else {
            self.run(events.drop_last()).apply(events.last())
        }
    }

    /// The rejections met on the way through a sequence of events, in the
    /// order in which they occur.
    pub open spec fn rejections(self, events: Seq<Event>) -> Seq<ProcessError>
        decreases events.len(),
    {
        if events.len() == 0 {
            Seq::empty()
        } else {
            let earlier = self.rejections(events.drop_last());
            match self.run(events.drop_last()).outcome(events.last()) {
                Ok(_) => earlier,
                Err(e) => earlier.push(e),
            }
        }
    }

    /// The ledger after `event`.
    ///
    /// An accepted deposit or withdrawal changes the client's total and
    /// leaves a transaction record. An accepted dispute step changes the
    /// owner's balances and the dispute status of the transaction. A rejected
    /// event changes nothing, with one exception: a deposit or withdrawal that
    /// the account of a client never seen before rejects leaves that fresh
    /// account behind.
    pub open spec fn apply(self, event: Event) -> Ledger {
        match event {
            Event::Transaction { kind, transaction_id, client_id, amount } => {
                if self.transactions.contains_key(transaction_id) {
                    self
                } else if self.outcome(event) is Ok {
                    Ledger {
                        clients: self.clients.insert(
                            client_id,
                            transferred(self.account(client_id), kind, amount),
                        ),
                        transactions: self.transactions.insert(
                            transaction_id,
                            Transaction::new(client_id, amount, kind),
                        ),
                    }
                } else {
                    self.with_account(client_id)
                }
            },
            Event::DisputeStep { kind, transaction_id, client_id } => {
                if self.outcome(event) is Ok {
                    let transaction = self.transactions[transaction_id];
                    Ledger {
                        clients: self.clients.insert(
                            client_id,
                            stepped(self.clients[client_id], transaction, kind),
                        ),
                        transactions: self.transactions.insert(
                            transaction_id,
                            transaction.with_status(target_status(kind)),
                        ),
                    }
                } else {
                    self
                }
            },
        }
    }
}

/// A run over `events` and then `event` is the run over `events`, followed
/// by `event`; and the rejections are those of the run over `events`, with
/// that of `event` if it is rejected.
pub proof fn lemma_run_push(ledger: Ledger, events: Seq<Event>, event: Event)
    ensures
        ledger.run(events.push(event)) == ledger.run(events).apply(event),
        ledger.rejections(events.push(event)) == (match ledger.run(events).outcome(event) {
            Ok(_) => ledger.rejections(events),
            Err(e) => ledger.rejections(events).push(e),
        }),
{
    assert(events.push(event).drop_last() =~= events);
}

} // verus!
