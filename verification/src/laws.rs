//! What holds of the ledger whatever the events: the laws of the engine,
//! each proved from the model in [`crate::system::ledger`].
//!
//! [`crate::system::Processor::process_event`] is proved to follow that
//! model, so every law here holds of the processor too.

use crate::amount::{decimal_sum, lemma_negated, sum_is_exact, Amount};
use crate::error::ProcessError;
use crate::model::{
    ClientID, DisputeStatus, DisputeStepKind, Event, TransactionID, TransactionKind,
};
use crate::system::ledger::{disputed_amount, released_amount, Ledger};
use vstd::prelude::*;

verus! {

/// Whether `event` is a deposit or a withdrawal under the identifier
/// `transaction_id`.
pub open spec fn is_transfer_with_id(event: Event, transaction_id: TransactionID) -> bool {
    event is Transaction && event.id() == transaction_id
}

/// Whether `event` is a deposit to the client `client_id`.
pub open spec fn is_deposit_to(event: Event, client_id: ClientID) -> bool {
    &&& event matches Event::Transaction { kind: TransactionKind::Deposit, .. }
    &&& event.client() == client_id
}

/// Whether every transaction on record belongs to a client with an account.
pub open spec fn owners_have_accounts(ledger: Ledger) -> bool {
    forall|id: TransactionID| #[trigger]
        ledger.transactions.contains_key(id) ==> ledger.clients.contains_key(
            ledger.transactions[id].client_id,
        )
}

/// The amounts of those events of a run that were accepted, in order.
pub open spec fn accepted_amounts(ledger: Ledger, events: Seq<Event>) -> Seq<Amount>
    decreases events.len(),
{
    if events.len() == 0 {
        Seq::empty()
    } else {
        let earlier = accepted_amounts(ledger, events.drop_last());
        if ledger.run(events.drop_last()).outcome(events.last()) is Ok {
            earlier.push(events.last().amount())
        } else {
            earlier
        }
    }
}

/// What decimal addition makes of `start` and then each of `amounts` in
/// turn; `None` once an addition overflows.
pub open spec fn decimal_total(start: Amount, amounts: Seq<Amount>) -> Option<Amount>
    decreases amounts.len(),
{
    if amounts.len() == 0 {
        Some(start)
    } else {
        match decimal_total(start, amounts.drop_last()) {
            Some(total) => decimal_sum(total, amounts.last()),
            None => None,
        }
    }
}

/// A rejected event changes no transaction record and no balance. It leaves
/// the ledger as it was, with one exception: a deposit or withdrawal under a
/// new identifier that the account rejects leaves its client with an account,
/// a fresh one if there was none.
pub proof fn law_rejection_changes_nothing(ledger: Ledger, event: Event)
    requires
        ledger.outcome(event) is Err,
    ensures
        ledger.apply(event).transactions == ledger.transactions,
        forall|id: ClientID| #[trigger] ledger.apply(event).account(id) == ledger.account(id),
        match event {
            Event::Transaction { transaction_id, client_id, .. } => ledger.apply(event) == (
            if ledger.transactions.contains_key(transaction_id) {
                ledger
            } else {
                ledger.with_account(client_id)
            }),
            Event::DisputeStep { .. } => ledger.apply(event) == ledger,
        },
{
}

/// A transaction record is permanent: no event removes it, and no event
/// changes its owner, its amount or its kind. Only its dispute status moves.
pub proof fn law_records_are_permanent(ledger: Ledger, event: Event, id: TransactionID)
    requires
        ledger.transactions.contains_key(id),
    ensures
        ledger.apply(event).transactions.contains_key(id),
        ledger.apply(event).transactions[id].client_id == ledger.transactions[id].client_id,
        ledger.apply(event).transactions[id].amount == ledger.transactions[id].amount,
        ledger.apply(event).transactions[id].kind == ledger.transactions[id].kind,
{
}

/// The same over a whole run.
pub proof fn law_records_are_permanent_over_run(
    ledger: Ledger,
    events: Seq<Event>,
    id: TransactionID,
)
    requires
        ledger.transactions.contains_key(id),
    ensures
        ledger.run(events).transactions.contains_key(id),
        ledger.run(events).transactions[id].client_id == ledger.transactions[id].client_id,
        ledger.run(events).transactions[id].amount == ledger.transactions[id].amount,
        ledger.run(events).transactions[id].kind == ledger.transactions[id].kind,
    decreases events.len(),
{
    if events.len() > 0 {
        law_records_are_permanent_over_run(ledger, events.drop_last(), id);
        law_records_are_permanent(ledger.run(events.drop_last()), events.last(), id);
    }
}

/// A record appears only under the identifier of an accepted deposit or
/// withdrawal: an identifier that the ledger does not know stays unknown
/// through every run in which no deposit or withdrawal carries it.
pub proof fn law_records_come_from_transfers(
    ledger: Ledger,
    events: Seq<Event>,
    id: TransactionID,
)
    requires
        !ledger.transactions.contains_key(id),
        forall|i: int| 0 <= i < events.len() ==> !is_transfer_with_id(#[trigger] events[i], id),
    ensures
        !ledger.run(events).transactions.contains_key(id),
    decreases events.len(),
{
    if events.len() > 0 {
        law_records_come_from_transfers(ledger, events.drop_last(), id);
        assert(!is_transfer_with_id(events[events.len() - 1], id));
    }
}

/// In every ledger that a run from the empty ledger reaches, the owner of
/// each recorded transaction has an account: the empty ledger has the
/// property and every event keeps it. In such a ledger no event is rejected
/// for want of the owner's account.
pub proof fn law_owners_have_accounts(ledger: Ledger, event: Event)
    requires
        owners_have_accounts(ledger),
    ensures
        owners_have_accounts(Ledger::empty()),
        owners_have_accounts(ledger.apply(event)),
        !(ledger.outcome(event) matches Err(ProcessError::ClientNotFound { .. })),
{
    let after = ledger.apply(event);
    assert forall|id: TransactionID| #[trigger]
        after.transactions.contains_key(id) implies after.clients.contains_key(
        after.transactions[id].client_id,
    ) by {
        if ledger.transactions.contains_key(id) {
            assert(ledger.clients.contains_key(ledger.transactions[id].client_id));
        }
    }
    match event {
        Event::DisputeStep { transaction_id, .. } => {
            if ledger.transactions.contains_key(transaction_id) {
                assert(ledger.clients.contains_key(ledger.transactions[transaction_id].client_id));
            }
        },
        _ => {},
    }
}

/// The same over a whole run.
pub proof fn law_owners_have_accounts_over_run(ledger: Ledger, events: Seq<Event>)
    requires
        owners_have_accounts(ledger),
    ensures
        owners_have_accounts(ledger.run(events)),
    decreases events.len(),
{
    if events.len() > 0 {
        law_owners_have_accounts_over_run(ledger, events.drop_last());
        law_owners_have_accounts(ledger.run(events.drop_last()), events.last());
    }
}

/// A run from the empty ledger never rejects an event for want of the
/// owner's account.
pub proof fn law_no_owner_goes_missing(events: Seq<Event>)
    ensures
        forall|i: int|
            0 <= i < Ledger::empty().rejections(events).len() ==> !(
            #[trigger] Ledger::empty().rejections(events)[i] matches ProcessError::ClientNotFound {
                ..
            }),
    decreases events.len(),
{
    if events.len() > 0 {
        let earlier = events.drop_last();
        law_no_owner_goes_missing(earlier);
        law_owners_have_accounts_over_run(Ledger::empty(), earlier);
        law_owners_have_accounts(Ledger::empty().run(earlier), events.last());
    }
}

/// An event touches one account and one record at most: the account of the
/// client it comes from and the record under the identifier it carries.
pub proof fn law_event_touches_its_own(
    ledger: Ledger,
    event: Event,
    client_id: ClientID,
    transaction_id: TransactionID,
)
    ensures
        client_id != event.client() ==> {
            &&& ledger.apply(event).clients.contains_key(client_id)
                == ledger.clients.contains_key(client_id)
            &&& ledger.apply(event).clients[client_id] == ledger.clients[client_id]
        },
        transaction_id != event.id() ==> {
            &&& ledger.apply(event).transactions.contains_key(transaction_id)
                == ledger.transactions.contains_key(transaction_id)
            &&& ledger.apply(event).transactions[transaction_id]
                == ledger.transactions[transaction_id]
        },
{
}

/// Deposits add up. Through any sequence of deposits to one client whose
/// account is not locked, the account stays unlocked, what is held does not
/// change, and the total at the end is what decimal addition makes of the
/// total at the start and the amounts of the accepted deposits, in order.
pub proof fn law_deposits_add_up(ledger: Ledger, client_id: ClientID, events: Seq<Event>)
    requires
        !ledger.account(client_id).locked,
        forall|i: int| 0 <= i < events.len() ==> is_deposit_to(#[trigger] events[i], client_id),
    ensures
        decimal_total(ledger.account(client_id).total, accepted_amounts(ledger, events)) == Some(
            ledger.run(events).account(client_id).total,
        ),
        ledger.run(events).account(client_id).held == ledger.account(client_id).held,
        !ledger.run(events).account(client_id).locked,
    decreases events.len(),
{
    if events.len() > 0 {
        let earlier = events.drop_last();
        let last = events.last();
        law_deposits_add_up(ledger, client_id, earlier);
        assert(is_deposit_to(events[events.len() - 1], client_id));
        let before = ledger.run(earlier);
        if before.outcome(last) is Ok {
            let amounts = accepted_amounts(ledger, earlier);
            assert(accepted_amounts(ledger, events) == amounts.push(last.amount()));
            assert(amounts.push(last.amount()).drop_last() =~= amounts);
        }
    }
}

/// Where every deposit of such a sequence comes under an identifier of its
/// own that the ledger has not seen, and the additions stay in range, every
/// deposit is accepted: nothing is rejected, and the total at the end is the
/// total at the start plus all the amounts.
pub proof fn law_fresh_deposits_are_accepted(
    ledger: Ledger,
    client_id: ClientID,
    events: Seq<Event>,
)
    requires
        !ledger.account(client_id).locked,
        forall|i: int| 0 <= i < events.len() ==> is_deposit_to(#[trigger] events[i], client_id),
        forall|i: int|
            0 <= i < events.len() ==> !ledger.transactions.contains_key(
                (#[trigger] events[i]).id(),
            ),
        forall|i: int, j: int|
            0 <= i < j < events.len() ==> (#[trigger] events[i]).id() != (
            #[trigger] events[j]).id(),
        decimal_total(ledger.account(client_id).total, events.map_values(|e: Event| e.amount()))
            is Some,
    ensures
        ledger.rejections(events) == Seq::<ProcessError>::empty(),
        accepted_amounts(ledger, events) == events.map_values(|e: Event| e.amount()),
        Some(ledger.run(events).account(client_id).total) == decimal_total(
            ledger.account(client_id).total,
            events.map_values(|e: Event| e.amount()),
        ),
    decreases events.len(),
{
    let amounts = events.map_values(|e: Event| e.amount());
    if events.len() == 0 {
        assert(accepted_amounts(ledger, events) =~= amounts);
    } else {
        let earlier = events.drop_last();
        let last = events.last();
        let earlier_amounts = earlier.map_values(|e: Event| e.amount());
        assert(amounts.drop_last() =~= earlier_amounts);
        assert(amounts.last() == last.amount());
        assert forall|i: int| 0 <= i < earlier.len() implies is_deposit_to(
            #[trigger] earlier[i],
            client_id,
        ) && !ledger.transactions.contains_key(earlier[i].id()) by {
            assert(is_deposit_to(events[i], client_id));
            assert(!ledger.transactions.contains_key(events[i].id()));
        }
        assert forall|i: int, j: int| 0 <= i < j < earlier.len() implies (
        #[trigger] earlier[i]).id() != (#[trigger] earlier[j]).id() by {
            assert(events[i].id() != events[j].id());
        }
        law_fresh_deposits_are_accepted(ledger, client_id, earlier);
        law_deposits_add_up(ledger, client_id, earlier);
        let before = ledger.run(earlier);
        assert(is_deposit_to(events[events.len() - 1], client_id));
        assert(!ledger.transactions.contains_key(events[events.len() - 1].id()));
        assert forall|i: int| 0 <= i < earlier.len() implies !is_transfer_with_id(
            #[trigger] earlier[i],
            last.id(),
        ) by {
            assert(events[i].id() != events[events.len() - 1].id());
        }
        law_records_come_from_transfers(ledger, earlier, last.id());
        assert(before.outcome(last) is Ok);
        assert(accepted_amounts(ledger, events) =~= amounts);
    }
}

/// A withdrawal is accepted only where the available balance covers it, and
/// a rejected withdrawal leaves the account of its client as it was: the
/// total in particular, and with it what is held and the lock.
pub proof fn law_withdrawal_needs_cover(
    ledger: Ledger,
    transaction_id: TransactionID,
    client_id: ClientID,
    amount: Amount,
)
    ensures
        ({
            let withdrawal = Event::Transaction {
                kind: TransactionKind::Withdrawal,
                transaction_id,
                client_id,
                amount,
            };
            let account = ledger.account(client_id);
            &&& ledger.outcome(withdrawal) is Ok ==> (account.spec_available() matches Some(
                available,
            ) && available.units() >= amount.units())
            &&& ledger.outcome(withdrawal) is Err ==> ledger.apply(withdrawal).account(client_id)
                == account
        }),
{
}

/// An identifier is used once. After an accepted deposit or withdrawal,
/// whatever events follow, a deposit or withdrawal that comes under the same
/// identifier is rejected as a duplicate and changes nothing, and the record
/// under that identifier is still that of the first.
pub proof fn law_identifier_is_used_once(
    ledger: Ledger,
    first: Event,
    between: Seq<Event>,
    second: Event,
    transaction_id: TransactionID,
)
    requires
        is_transfer_with_id(first, transaction_id),
        is_transfer_with_id(second, transaction_id),
        ledger.outcome(first) is Ok,
    ensures
        ({
            let later = ledger.apply(first).run(between);
            &&& later.outcome(second) == Err::<(), ProcessError>(
                ProcessError::DuplicateTransaction { transaction_id },
            )
            &&& later.apply(second) == later
            &&& later.transactions.contains_key(transaction_id)
            &&& first matches Event::Transaction { kind, client_id, amount, .. } ==> {
                &&& later.transactions[transaction_id].kind == kind
                &&& later.transactions[transaction_id].client_id == client_id
                &&& later.transactions[transaction_id].amount == amount
            }
        }),
{
    law_records_are_permanent_over_run(ledger.apply(first), between, transaction_id);
}

/// Dispute, resolve, dispute again. On an undisputed transaction of a client
/// with an account, the three steps are accepted one after the other as long
/// as the three additions to what is held stay in range. Where these
/// additions are exact, the second dispute holds as much as the first did;
/// the total is the same throughout.
pub proof fn law_dispute_resolve_dispute(
    ledger: Ledger,
    transaction_id: TransactionID,
    client_id: ClientID,
)
    requires
        ledger.transactions.contains_key(transaction_id),
        ledger.transactions[transaction_id].client_id == client_id,
        ledger.transactions[transaction_id].dispute_status == DisputeStatus::Undisputed,
        ledger.transactions[transaction_id].amount.in_range(),
        ledger.clients.contains_key(client_id),
        ({
            let transaction = ledger.transactions[transaction_id];
            let held = ledger.clients[client_id].held;
            let disputed = decimal_sum(held, disputed_amount(transaction));
            let resolved = decimal_sum(disputed.unwrap(), released_amount(transaction));
            &&& sum_is_exact(held, disputed_amount(transaction))
            &&& sum_is_exact(disputed.unwrap(), released_amount(transaction))
            &&& sum_is_exact(resolved.unwrap(), disputed_amount(transaction))
        }),
    ensures
        ({
            let dispute = Event::DisputeStep {
                kind: DisputeStepKind::Dispute,
                transaction_id,
                client_id,
            };
            let resolve = Event::DisputeStep {
                kind: DisputeStepKind::Resolve,
                transaction_id,
                client_id,
            };
            let disputed = ledger.apply(dispute);
            let resolved = disputed.apply(resolve);
            let disputed_again = resolved.apply(dispute);
            &&& ledger.outcome(dispute) is Ok
            &&& disputed.outcome(resolve) is Ok
            &&& resolved.outcome(dispute) is Ok
            &&& disputed_again.transactions[transaction_id].dispute_status
                == DisputeStatus::Disputed
            &&& resolved.clients[client_id].held.units() == ledger.clients[client_id].held.units()
            &&& disputed_again.clients[client_id].held.units()
                == disputed.clients[client_id].held.units()
            &&& disputed_again.clients[client_id].total == ledger.clients[client_id].total
        }),
{
    lemma_negated(ledger.transactions[transaction_id].amount);
}

/// A chargeback locks for good. After an accepted chargeback the owner's
/// account is locked, and it stays locked whatever events follow: every
/// deposit and every withdrawal to that client under a new identifier is
/// rejected because the account is locked.
pub proof fn law_chargeback_locks_for_good(
    ledger: Ledger,
    transaction_id: TransactionID,
    client_id: ClientID,
    between: Seq<Event>,
    transfer: Event,
)
    requires
        ledger.outcome(
            Event::DisputeStep { kind: DisputeStepKind::Chargeback, transaction_id, client_id },
        ) is Ok,
        transfer is Transaction,
        transfer.client() == client_id,
    ensures
        ({
            let chargeback = Event::DisputeStep {
                kind: DisputeStepKind::Chargeback,
                transaction_id,
                client_id,
            };
            let later = ledger.apply(chargeback).run(between);
            &&& ledger.transactions[transaction_id].dispute_status == DisputeStatus::Disputed
            &&& later.clients.contains_key(client_id)
            &&& later.clients[client_id].locked
            &&& transfer matches Event::Transaction { kind, transaction_id: id, .. } ==> (
            if later.transactions.contains_key(id) {
                later.outcome(transfer) == Err::<(), ProcessError>(
                    ProcessError::DuplicateTransaction { transaction_id: id },
                )
            } else {
                later.outcome(transfer) == Err::<(), ProcessError>(
                    ProcessError::AccountLocked { kind },
                )
            })
        }),
{
    let chargeback = Event::DisputeStep {
        kind: DisputeStepKind::Chargeback,
        transaction_id,
        client_id,
    };
    law_lock_is_permanent_over_run(ledger.apply(chargeback), between, client_id);
}

/// No event unlocks an account.
pub proof fn law_lock_is_permanent(ledger: Ledger, event: Event, client_id: ClientID)
    requires
        ledger.clients.contains_key(client_id),
        ledger.clients[client_id].locked,
    ensures
        ledger.apply(event).clients.contains_key(client_id),
        ledger.apply(event).clients[client_id].locked,
{
}

/// The same over a whole run.
pub proof fn law_lock_is_permanent_over_run(
    ledger: Ledger,
    events: Seq<Event>,
    client_id: ClientID,
)
    requires
        ledger.clients.contains_key(client_id),
        ledger.clients[client_id].locked,
    ensures
        ledger.run(events).clients.contains_key(client_id),
        ledger.run(events).clients[client_id].locked,
    decreases events.len(),
{
    if events.len() > 0 {
        law_lock_is_permanent_over_run(ledger, events.drop_last(), client_id);
        law_lock_is_permanent(ledger.run(events.drop_last()), events.last(), client_id);
    }
}

/// A rejected withdrawal leaves no record. The records are as they were;
/// and where the identifier of the withdrawal was new, a dispute step
/// against it is rejected because there is no such transaction, after any
/// events in between of which none is a deposit or withdrawal under that
/// identifier.
pub proof fn law_rejected_withdrawal_leaves_no_record(
    ledger: Ledger,
    transaction_id: TransactionID,
    client_id: ClientID,
    amount: Amount,
    between: Seq<Event>,
    step: Event,
)
    requires
        ledger.outcome(
            Event::Transaction {
                kind: TransactionKind::Withdrawal,
                transaction_id,
                client_id,
                amount,
            },
        ) is Err,
        !ledger.transactions.contains_key(transaction_id),
        forall|i: int|
            0 <= i < between.len() ==> !is_transfer_with_id(#[trigger] between[i], transaction_id),
        step is DisputeStep,
        step.id() == transaction_id,
    ensures
        ({
            let withdrawal = Event::Transaction {
                kind: TransactionKind::Withdrawal,
                transaction_id,
                client_id,
                amount,
            };
            let later = ledger.apply(withdrawal).run(between);
            &&& ledger.apply(withdrawal).transactions == ledger.transactions
            &&& later.outcome(step) == Err::<(), ProcessError>(
                ProcessError::TransactionNotFound { transaction_id },
            )
            &&& later.apply(step) == later
        }),
{
    let withdrawal = Event::Transaction {
        kind: TransactionKind::Withdrawal,
        transaction_id,
        client_id,
        amount,
    };
    law_records_come_from_transfers(ledger.apply(withdrawal), between, transaction_id);
}

} // verus!
