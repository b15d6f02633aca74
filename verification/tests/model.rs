use challenge::{
    Amount, Client, DisputeStatus, InvalidTransition, ProcessError, Transaction, TransactionKind,
};

fn dec(mantissa: i128, scale: u32) -> Amount {
    Amount::new(mantissa, scale).expect("amount in range")
}

fn refusal(reason: InvalidTransition) -> Result<(), ProcessError> {
    Err(ProcessError::InvalidDisputeTransition { reason })
}

#[test]
fn a_new_client_has_nothing_and_is_open() {
    let client = Client::new();
    assert_eq!(Amount::zero(), client.held());
    assert_eq!(Amount::zero(), client.total());
    assert_eq!(Amount::zero(), client.available());
    assert!(!client.locked());
    assert_eq!(Client::from(dec(0, 0), dec(0, 0), false), client);
}

#[test]
fn from_sets_every_field() {
    let client = Client::from(dec(25, 1), dec(100, 0), true);
    assert_eq!((25, 1), (client.held().mantissa(), client.held().scale()));
    assert_eq!((100, 0), (client.total().mantissa(), client.total().scale()));
    assert!(client.locked());
}

#[test]
fn available_is_total_less_held() {
    let client = Client::from(dec(25, 1), dec(100, 0), false);
    assert_eq!((975, 1), {
        let available = client.available();
        (available.mantissa(), available.scale())
    });
}

#[test]
fn available_may_be_negative() {
    let client = Client::from(dec(100, 0), dec(0, 0), false);
    assert_eq!(dec(-100, 0), client.available());
}

#[test]
fn deposit_adds_to_the_total() {
    let mut client = Client::from(dec(3, 0), dec(10, 0), false);
    assert_eq!(Ok(()), client.deposit(dec(125, 2)));
    assert_eq!(Client::from(dec(3, 0), dec(1125, 2), false), client);
    assert_eq!((1125, 2), (client.total().mantissa(), client.total().scale()));
}

#[test]
fn deposit_needs_no_funds() {
    let mut client = Client::from(dec(50, 0), dec(10, 0), false);
    assert_eq!(Ok(()), client.deposit(dec(1, 0)));
    assert_eq!(dec(11, 0), client.total());
}

#[test]
fn deposit_to_a_locked_account_is_refused() {
    let mut client = Client::from(dec(0, 0), dec(10, 0), true);
    assert_eq!(
        Err(ProcessError::AccountLocked {
            kind: TransactionKind::Deposit
        }),
        client.deposit(dec(1, 0)),
    );
    assert_eq!(Client::from(dec(0, 0), dec(10, 0), true), client);
}

#[test]
fn withdraw_takes_off_the_total() {
    let mut client = Client::from(dec(0, 0), dec(100, 0), false);
    assert_eq!(Ok(()), client.withdraw(dec(205, 1)));
    assert_eq!(Client::from(dec(0, 0), dec(795, 1), false), client);
}

#[test]
fn withdraw_of_all_that_is_available_succeeds() {
    let mut client = Client::from(dec(40, 0), dec(100, 0), false);
    assert_eq!(Ok(()), client.withdraw(dec(600, 1)));
    assert_eq!(Client::from(dec(40, 0), dec(40, 0), false), client);
}

#[test]
fn withdraw_beyond_what_is_available_is_refused() {
    let mut client = Client::from(dec(40, 0), dec(100, 0), false);
    assert_eq!(
        Err(ProcessError::InsufficientFunds),
        client.withdraw(dec(6001, 2))
    );
    assert_eq!(Client::from(dec(40, 0), dec(100, 0), false), client);
}

#[test]
fn withdraw_from_a_locked_account_is_refused() {
    let mut client = Client::from(dec(0, 0), dec(100, 0), true);
    assert_eq!(
        Err(ProcessError::AccountLocked {
            kind: TransactionKind::Withdrawal
        }),
        client.withdraw(dec(1, 0)),
    );
    assert_eq!(Client::from(dec(0, 0), dec(100, 0), true), client);
}

#[test]
fn a_locked_account_is_refused_before_its_funds_are_looked_at() {
    let mut client = Client::from(dec(0, 0), dec(0, 0), true);
    assert_eq!(
        Err(ProcessError::AccountLocked {
            kind: TransactionKind::Withdrawal
        }),
        client.withdraw(dec(1, 0)),
    );
}

#[test]
fn hold_adds_to_what_is_held() {
    let mut client = Client::from(dec(5, 0), dec(100, 0), false);
    client.hold(dec(25, 1));
    assert_eq!(Client::from(dec(75, 1), dec(100, 0), false), client);
}

#[test]
fn hold_of_a_negative_amount_releases() {
    let mut client = Client::from(dec(5, 0), dec(100, 0), true);
    client.hold(dec(-5, 0));
    assert_eq!(Client::from(dec(0, 0), dec(100, 0), true), client);
    client.hold(dec(-1, 0));
    assert_eq!(Client::from(dec(-1, 0), dec(100, 0), true), client);
}

#[test]
fn chargeback_takes_from_both_and_locks() {
    let mut client = Client::from(dec(30, 0), dec(100, 0), false);
    client.chargeback(dec(30, 0));
    assert_eq!(Client::from(dec(0, 0), dec(70, 0), true), client);
}

#[test]
fn chargeback_of_a_negative_amount_gives_back() {
    let mut client = Client::from(dec(-20, 0), dec(80, 0), false);
    client.chargeback(dec(-20, 0));
    assert_eq!(Client::from(dec(0, 0), dec(100, 0), true), client);
}

#[test]
fn a_new_transaction_is_undisputed() {
    let transaction = Transaction::new(7, dec(125, 2), TransactionKind::Withdrawal);
    assert_eq!(7, transaction.client_id());
    assert_eq!(dec(125, 2), transaction.amount());
    assert_eq!(TransactionKind::Withdrawal, *transaction.kind());
    assert_eq!(DisputeStatus::Undisputed, *transaction.dispute_status());
    assert!(!transaction.is_under_dispute());
}

#[test]
fn set_dispute_status_changes_the_status_only() {
    let mut transaction = Transaction::new(7, dec(125, 2), TransactionKind::Deposit);
    transaction.set_dispute_status(DisputeStatus::Disputed);
    assert!(transaction.is_under_dispute());
    assert_eq!(DisputeStatus::Disputed, *transaction.dispute_status());
    assert_eq!(7, transaction.client_id());
    assert_eq!(dec(125, 2), transaction.amount());
    assert_eq!(TransactionKind::Deposit, *transaction.kind());
    transaction.set_dispute_status(DisputeStatus::ChargedBack);
    assert!(!transaction.is_under_dispute());
}

#[test]
fn transitions_from_undisputed() {
    let transaction = Transaction::new(1, dec(1, 0), TransactionKind::Deposit);
    assert_eq!(
        Ok(()),
        transaction.validate_dispute_status_transition(DisputeStatus::Disputed)
    );
    assert_eq!(
        refusal(InvalidTransition::NotDisputed),
        transaction.validate_dispute_status_transition(DisputeStatus::Undisputed)
    );
    assert_eq!(
        refusal(InvalidTransition::NotDisputed),
        transaction.validate_dispute_status_transition(DisputeStatus::ChargedBack)
    );
    assert_eq!(DisputeStatus::Undisputed, *transaction.dispute_status());
}

#[test]
fn transitions_from_disputed() {
    let mut transaction = Transaction::new(1, dec(1, 0), TransactionKind::Deposit);
    transaction.set_dispute_status(DisputeStatus::Disputed);
    assert_eq!(
        Ok(()),
        transaction.validate_dispute_status_transition(DisputeStatus::Undisputed)
    );
    assert_eq!(
        Ok(()),
        transaction.validate_dispute_status_transition(DisputeStatus::ChargedBack)
    );
    assert_eq!(
        refusal(InvalidTransition::AlreadyDisputed),
        transaction.validate_dispute_status_transition(DisputeStatus::Disputed)
    );
    assert_eq!(DisputeStatus::Disputed, *transaction.dispute_status());
}

#[test]
fn transitions_from_charged_back() {
    let mut transaction = Transaction::new(1, dec(1, 0), TransactionKind::Withdrawal);
    transaction.set_dispute_status(DisputeStatus::ChargedBack);
    for target in [
        DisputeStatus::Undisputed,
        DisputeStatus::Disputed,
        DisputeStatus::ChargedBack,
    ] {
        assert_eq!(
            refusal(InvalidTransition::AlreadyChargedBack),
            transaction.validate_dispute_status_transition(target)
        );
    }
}

#[test]
fn every_rejection_has_its_line() {
    let lines = [
        (
            ProcessError::AccountLocked {
                kind: TransactionKind::Deposit,
            },
            "Cannot deposit when account is locked.",
        ),
        (
            ProcessError::AccountLocked {
                kind: TransactionKind::Withdrawal,
            },
            "Cannot withdraw when account is locked.",
        ),
        (ProcessError::InsufficientFunds, "Insufficient funds."),
        (
            ProcessError::DuplicateTransaction { transaction_id: 1 },
            "Transaction already exists with id 1.",
        ),
        (
            ProcessError::TransactionNotFound { transaction_id: 3 },
            "Transaction 3 not found.",
        ),
        (
            ProcessError::ClientNotFound { client_id: 12 },
            "Client 12 does not exist.",
        ),
        (
            ProcessError::ClientMismatch {
                client_id: 3,
                owner_id: 1,
            },
            "Client id 3 does not match transaction client id 1.",
        ),
        (
            ProcessError::InvalidDisputeTransition {
                reason: InvalidTransition::AlreadyDisputed,
            },
            "Transaction is already disputed.",
        ),
        (
            ProcessError::InvalidDisputeTransition {
                reason: InvalidTransition::AlreadyChargedBack,
            },
            "Transaction has already been charged back.",
        ),
        (
            ProcessError::InvalidDisputeTransition {
                reason: InvalidTransition::NotDisputed,
            },
            "Transaction is not disputed.",
        ),
        (ProcessError::AmountOverflow, "Amount out of range."),
    ];
    for (error, line) in lines {
        assert_eq!(line, error.message());
    }
}

#[test]
fn identifiers_are_rendered_in_decimal() {
    assert_eq!(
        "Transaction 0 not found.",
        ProcessError::TransactionNotFound { transaction_id: 0 }.message()
    );
    assert_eq!(
        "Transaction 4294967295 not found.",
        ProcessError::TransactionNotFound {
            transaction_id: u32::MAX
        }
        .message()
    );
    assert_eq!(
        "Client id 65535 does not match transaction client id 1000.",
        ProcessError::ClientMismatch {
            client_id: u16::MAX,
            owner_id: 1000
        }
        .message()
    );
    assert_eq!("0", challenge::text::decimal_string(0));
    assert_eq!("10", challenge::text::decimal_string(10));
    assert_eq!("907", challenge::text::decimal_string(907));
    assert_eq!(
        "18446744073709551615",
        challenge::text::decimal_string(u64::MAX)
    );
}
