//! The processor: it owns the accounts and the transaction records and
//! applies one event at a time.

use super::ledger::Ledger;
use crate::amount::Amount;
use crate::error::ProcessError;
use crate::model::{
    Client, ClientID, DisputeStatus, DisputeStepKind, Event, Transaction, TransactionID,
    TransactionKind,
};
use std::collections::HashMap;
use vstd::prelude::*;

verus! {

/// Keeps the state of the ledger and processes events against it.
pub struct Processor {
    clients_by_id: HashMap<ClientID, Client>,
    transactions_by_id: HashMap<TransactionID, Transaction>,
}

impl View for Processor {
    type V = Ledger;

    closed spec fn view(&self) -> Ledger {
        Ledger { clients: self.clients_by_id@, transactions: self.transactions_by_id@ }
    }
}

impl Processor {
    /// A processor that has seen no event.
    pub fn new() -> (processor: Self)
        ensures
            processor@ == Ledger::empty(),
    {
        Self { clients_by_id: HashMap::new(), transactions_by_id: HashMap::new() }
    }

    /// Hands out the accounts. Meant for the end of a run: the processor is
    /// used up.
    pub fn clients_by_id(self) -> (clients: HashMap<ClientID, Client>)
        ensures
            clients@ == self@.clients,
    {
        self.clients_by_id
    }

    /// Applies one event. A rejected event comes back as `Err` with the
    /// reason; the processor is then ready for the next event all the same.
    pub fn process_event(&mut self, event: Event) -> (res: Result<(), ProcessError>)
        ensures
            res == old(self)@.outcome(event),
            final(self)@ == old(self)@.apply(event),
    {
        match event {
            Event::Transaction { kind, transaction_id, client_id, amount } => match kind {
                TransactionKind::Deposit => self.deposit(transaction_id, client_id, amount),
                TransactionKind::Withdrawal => self.withdraw(transaction_id, client_id, amount),
            },
            Event::DisputeStep { kind, transaction_id, client_id } => match kind {
                DisputeStepKind::Dispute => self.dispute(transaction_id, client_id),
                DisputeStepKind::Resolve => self.resolve(transaction_id, client_id),
                DisputeStepKind::Chargeback => self.chargeback(transaction_id, client_id),
            },
        }
    }

    fn deposit(&mut self, transaction_id: TransactionID, client_id: ClientID, amount: Amount) -> (res:
        Result<(), ProcessError>)
        ensures
            res == old(self)@.outcome(
                Event::Transaction {
                    kind: TransactionKind::Deposit,
                    transaction_id,
                    client_id,
                    amount,
                },
            ),
            final(self)@ == old(self)@.apply(
                Event::Transaction {
                    kind: TransactionKind::Deposit,
                    transaction_id,
                    client_id,
                    amount,
                },
            ),
    {
        match self.check_transaction_does_not_exist(transaction_id) {
            Err(e) => {
                return Err(e);
            },
            Ok(()) => {},
        }
        let mut client = self.find_or_create_client(client_id);
        if !client.locked() && client.total().checked_add(amount).is_none() {
            return Err(ProcessError::AmountOverflow);
        }
        match client.deposit(amount) {
            Err(e) => Err(e),
            Ok(()) => {
                self.clients_by_id.insert(client_id, client);
                self.create_transaction(
                    transaction_id,
                    Transaction::new(client_id, amount, TransactionKind::Deposit),
                );
                assert(self@.clients =~= old(self)@.clients.insert(client_id, client));
                Ok(())
            },
        }
    }

    fn withdraw(&mut self, transaction_id: TransactionID, client_id: ClientID, amount: Amount) -> (res:
        Result<(), ProcessError>)
        ensures
            res == old(self)@.outcome(
                Event::Transaction {
                    kind: TransactionKind::Withdrawal,
                    transaction_id,
                    client_id,
                    amount,
                },
            ),
            final(self)@ == old(self)@.apply(
                Event::Transaction {
                    kind: TransactionKind::Withdrawal,
                    transaction_id,
                    client_id,
                    amount,
                },
            ),
    {
        match self.check_transaction_does_not_exist(transaction_id) {
            Err(e) => {
                return Err(e);
            },
            Ok(()) => {},
        }
        let mut client = self.find_or_create_client(client_id);
        if !Self::withdrawal_in_range(&client, amount) {
            return Err(ProcessError::AmountOverflow);
        }
        match client.withdraw(amount) {
            Err(e) => Err(e),
            Ok(()) => {
                self.clients_by_id.insert(client_id, client);
                self.create_transaction(
                    transaction_id,
                    Transaction::new(client_id, amount, TransactionKind::Withdrawal),
                );
                assert(self@.clients =~= old(self)@.clients.insert(client_id, client));
                Ok(())
            },
        }
    }

    /// Tests whether every balance that a withdrawal computes on this
    /// account is in range.
    fn withdrawal_in_range(client: &Client, amount: Amount) -> (in_range: bool)
        ensures
            in_range == client.withdrawal_in_range(amount),
    {
        if client.locked() {
            return true;
        }
        match client.total().checked_sub(client.held()) {
            None => false,
            Some(available) => available.less_than(&amount) || client.total().checked_sub(
                amount,
            ).is_some(),
        }
    }

    fn dispute(&mut self, transaction_id: TransactionID, client_id: ClientID) -> (res: Result<
        (),
        ProcessError,
    >)
        ensures
            res == old(self)@.outcome(
                Event::DisputeStep { kind: DisputeStepKind::Dispute, transaction_id, client_id },
            ),
            final(self)@ == old(self)@.apply(
                Event::DisputeStep { kind: DisputeStepKind::Dispute, transaction_id, client_id },
            ),
    {
        let (mut transaction, mut client) = match self.get_transaction_and_client(transaction_id) {
            Err(e) => {
                return Err(e);
            },
            Ok(found) => found,
        };
        match Self::check_client_owns_transaction(client_id, &transaction) {
            Err(e) => {
                return Err(e);
            },
            Ok(()) => {},
        }
        match transaction.validate_dispute_status_transition(DisputeStatus::Disputed) {
            Err(e) => {
                return Err(e);
            },
            Ok(()) => {},
        }
        let amount = match transaction.kind() {
            TransactionKind::Deposit => transaction.amount(),
            TransactionKind::Withdrawal => transaction.amount().negated(),
        };
        if client.held().checked_add(amount).is_none() {
            return Err(ProcessError::AmountOverflow);
        }
        client.hold(amount);
        transaction.set_dispute_status(DisputeStatus::Disputed);
        self.clients_by_id.insert(client_id, client);
        self.create_transaction(transaction_id, transaction);
        Ok(())
    }

    fn resolve(&mut self, transaction_id: TransactionID, client_id: ClientID) -> (res: Result<
        (),
        ProcessError,
    >)
        ensures
            res == old(self)@.outcome(
                Event::DisputeStep { kind: DisputeStepKind::Resolve, transaction_id, client_id },
            ),
            final(self)@ == old(self)@.apply(
                Event::DisputeStep { kind: DisputeStepKind::Resolve, transaction_id, client_id },
            ),
    {
        let (mut transaction, mut client) = match self.get_transaction_and_client(transaction_id) {
            Err(e) => {
                return Err(e);
            },
            Ok(found) => found,
        };
        match Self::check_client_owns_transaction(client_id, &transaction) {
            Err(e) => {
                return Err(e);
            },
            Ok(()) => {},
        }
        match transaction.validate_dispute_status_transition(DisputeStatus::Undisputed) {
            Err(e) => {
                return Err(e);
            },
            Ok(()) => {},
        }
        let amount = match transaction.kind() {
            TransactionKind::Deposit => transaction.amount().negated(),
            TransactionKind::Withdrawal => transaction.amount(),
        };
        if client.held().checked_add(amount).is_none() {
            return Err(ProcessError::AmountOverflow);
        }
        client.hold(amount);
        transaction.set_dispute_status(DisputeStatus::Undisputed);
        self.clients_by_id.insert(client_id, client);
        self.create_transaction(transaction_id, transaction);
        Ok(())
    }

    fn chargeback(&mut self, transaction_id: TransactionID, client_id: ClientID) -> (res: Result<
        (),
        ProcessError,
    >)
        ensures
            res == old(self)@.outcome(
                Event::DisputeStep { kind: DisputeStepKind::Chargeback, transaction_id, client_id },
            ),
            final(self)@ == old(self)@.apply(
                Event::DisputeStep { kind: DisputeStepKind::Chargeback, transaction_id, client_id },
            ),
    {
        let (mut transaction, mut client) = match self.get_transaction_and_client(transaction_id) {
            Err(e) => {
                return Err(e);
            },
            Ok(found) => found,
        };
        match Self::check_client_owns_transaction(client_id, &transaction) {
            Err(e) => {
                return Err(e);
            },
            Ok(()) => {},
        }
        match transaction.validate_dispute_status_transition(DisputeStatus::ChargedBack) {
            Err(e) => {
                return Err(e);
            },
            Ok(()) => {},
        }
        let amount = match transaction.kind() {
            TransactionKind::Deposit => transaction.amount(),
            TransactionKind::Withdrawal => transaction.amount().negated(),
        };
        if client.held().checked_sub(amount).is_none() || client.total().checked_sub(
            amount,
        ).is_none() {
            return Err(ProcessError::AmountOverflow);
        }
        client.chargeback(amount);
        transaction.set_dispute_status(DisputeStatus::ChargedBack);
        self.clients_by_id.insert(client_id, client);
        self.create_transaction(transaction_id, transaction);
        Ok(())
    }

    fn check_client_owns_transaction(client_id: ClientID, transaction: &Transaction) -> (res: Result<
        (),
        ProcessError,
    >)
        ensures
            client_id == transaction.client_id ==> res is Ok,
            client_id != transaction.client_id ==> res == Err::<(), ProcessError>(
                ProcessError::ClientMismatch { client_id, owner_id: transaction.client_id },
            ),
    {
        if client_id != transaction.client_id() {
            return Err(
                ProcessError::ClientMismatch { client_id, owner_id: transaction.client_id() },
            );
        }
        Ok(())
    }

    fn check_transaction_does_not_exist(&self, transaction_id: TransactionID) -> (res: Result<
        (),
        ProcessError,
    >)
        ensures
            !self@.transactions.contains_key(transaction_id) ==> res is Ok,
            self@.transactions.contains_key(transaction_id) ==> res == Err::<(), ProcessError>(
                ProcessError::DuplicateTransaction { transaction_id },
            ),
    {
        if self.transactions_by_id.contains_key(&transaction_id) {
            return Err(ProcessError::DuplicateTransaction { transaction_id });
        }
        Ok(())
    }

    /// The account of the client as it stands; a client seen for the first
    /// time gets a fresh account, which is entered at once.
    fn find_or_create_client(&mut self, client_id: ClientID) -> (client: Client)
        ensures
            client == old(self)@.account(client_id),
            final(self)@ == old(self)@.with_account(client_id),
    {
        match self.clients_by_id.get(&client_id) {
            Some(client) => *client,
            None => {
                let client = Client::new();
                self.clients_by_id.insert(client_id, client);
                client
            },
        }
    }

    /// Enters a transaction record under its identifier.
    fn create_transaction(&mut self, transaction_id: TransactionID, transaction: Transaction)
        ensures
            final(self)@ == (Ledger {
                transactions: old(self)@.transactions.insert(transaction_id, transaction),
                ..old(self)@
            }),
    {
        self.transactions_by_id.insert(transaction_id, transaction);
    }

    /// Looks up a transaction and the account of its owner.
    fn get_transaction_and_client(&self, transaction_id: TransactionID) -> (res: Result<
        (Transaction, Client),
        ProcessError,
    >)
        ensures
            match res {
                Ok((transaction, client)) => {
                    &&& self@.transactions.contains_key(transaction_id)
                    &&& transaction == self@.transactions[transaction_id]
                    &&& self@.clients.contains_key(transaction.client_id)
                    &&& client == self@.clients[transaction.client_id]
                },
                Err(e) => {
                    if !self@.transactions.contains_key(transaction_id) {
                        e == (ProcessError::TransactionNotFound { transaction_id })
                    } else {
                        &&& !self@.clients.contains_key(
                            self@.transactions[transaction_id].client_id,
                        )
                        &&& e == (ProcessError::ClientNotFound {
                            client_id: self@.transactions[transaction_id].client_id,
                        })
                    }
                },
            },
    {
        let transaction = match self.transactions_by_id.get(&transaction_id) {
            Some(transaction) => *transaction,
            None => {
                return Err(ProcessError::TransactionNotFound { transaction_id });
            },
        };
        match self.clients_by_id.get(&transaction.client_id()) {
            Some(client) => Ok((transaction, *client)),
            None => Err(ProcessError::ClientNotFound { client_id: transaction.client_id() }),
        }
    }
}

} // verus!
