use challenge::system::process_events;
use challenge::{Amount, Client, ClientID, DisputeStepKind, Event, TransactionKind};
use rust_decimal::Decimal;
use std::collections::HashMap;

fn dec(mantissa: i128, scale: u32) -> Amount {
    Amount::new(mantissa, scale).expect("amount in range")
}

fn decimal(amount: Amount) -> Decimal {
    Decimal::from_i128_with_scale(amount.mantissa(), amount.scale())
}

fn plus(a: Amount, b: Amount) -> Amount {
    let sum = decimal(a) + decimal(b);
    dec(sum.mantissa(), sum.scale())
}

fn minus(a: Amount, b: Amount) -> Amount {
    let difference = decimal(a) - decimal(b);
    dec(difference.mantissa(), difference.scale())
}

// Runs the events and holds the accounts and the error lines against what is
// expected.
fn assert_results(
    input_events: Vec<Result<Event, String>>,
    expected_clients_by_id: HashMap<ClientID, Client>,
    expected_errors: Vec<String>,
) {
    let summary = match process_events(input_events) {
        Ok(summary) => summary,
        Err(_) => panic!("Unexpectedly failed to process events."),
    };
    let errors = summary
        .errors
        .iter()
        .map(|e| e.message())
        .collect::<Vec<_>>();

    assert_eq!(expected_clients_by_id, summary.clients);
    assert_eq!(expected_errors, errors);
}

#[test]
fn processing_test_empty_input() {
    assert_results(vec![], HashMap::new(), vec![]);
}

#[test]
fn processing_test_single_deposit() {
    let client_id = 1;
    let deposit_amount = dec(100, 0);

    assert_results(
        vec![Ok(Event::Transaction {
            kind: TransactionKind::Deposit,
            client_id,
            transaction_id: 1,
            amount: deposit_amount,
        })],
        HashMap::from([(client_id, Client::from(dec(0, 0), deposit_amount, false))]),
        vec![],
    );
}

#[test]
fn processing_test_single_deposit_accurate() {
    let client_id = 1;
    let deposit_amount = dec(10012345, 5);

    assert_results(
        vec![Ok(Event::Transaction {
            kind: TransactionKind::Deposit,
            client_id,
            transaction_id: 1,
            amount: deposit_amount,
        })],
        HashMap::from([(client_id, Client::from(dec(0, 0), deposit_amount, false))]),
        vec![],
    );
}

#[test]
fn processing_test_two_deposits() {
    let client_id = 1;
    let first_deposit_amount = dec(100, 0);
    let second_deposit_amount = dec(200, 0);

    assert_results(
        vec![
            Ok(Event::Transaction {
                kind: TransactionKind::Deposit,
                client_id,
                transaction_id: 1,
                amount: first_deposit_amount,
            }),
            Ok(Event::Transaction {
                kind: TransactionKind::Deposit,
                client_id,
                transaction_id: 2,
                amount: second_deposit_amount,
            }),
        ],
        HashMap::from([(
            client_id,
            Client::from(dec(0, 0), plus(first_deposit_amount, second_deposit_amount), false),
        )]),
        vec![],
    );
}

#[test]
fn processing_test_unsuccessful_deposit_due_to_existing_transaction() {
    let client_id = 1;
    let transaction_id = 1;
    let first_deposit_amount = dec(10, 0);

    assert_results(
        vec![
            Ok(Event::Transaction {
                kind: TransactionKind::Deposit,
                client_id,
                transaction_id,
                amount: first_deposit_amount,
            }),
            Ok(Event::Transaction {
                kind: TransactionKind::Deposit,
                client_id,
                transaction_id,
                amount: dec(20, 0),
            }),
        ],
        HashMap::from([(
            client_id,
            Client::from(dec(0, 0), first_deposit_amount, false),
        )]),
        vec![String::from("Transaction already exists with id 1.")],
    );
}

#[test]
fn processing_test_error_event() {
    let client_id = 1;
    let deposit_amount = dec(100, 0);
    let input_events = vec![
        Ok(Event::Transaction {
            kind: TransactionKind::Deposit,
            client_id,
            transaction_id: 1,
            amount: deposit_amount,
        }),
        Err(String::from("Test")),
        Ok(Event::Transaction {
            kind: TransactionKind::Deposit,
            client_id,
            transaction_id: 2,
            amount: dec(10, 0),
        }),
    ];

    let result = process_events(input_events);

    assert!(result.is_err());
}

#[test]
fn processing_test_successful_withdrawal() {
    let client_id = 1;
    let deposit_amount = dec(100, 0);
    let withdrawal_amount = dec(20, 0);

    assert_results(
        vec![
            Ok(Event::Transaction {
                kind: TransactionKind::Deposit,
                client_id,
                transaction_id: 1,
                amount: deposit_amount,
            }),
            Ok(Event::Transaction {
                kind: TransactionKind::Withdrawal,
                client_id,
                transaction_id: 2,
                amount: withdrawal_amount,
            }),
        ],
        HashMap::from([(
            client_id,
            Client::from(dec(0, 0), minus(deposit_amount, withdrawal_amount), false),
        )]),
        vec![],
    );
}

#[test]
fn processing_test_unsuccessful_withdrawal_due_to_insufficient_funds() {
    let client_id = 1;
    let deposit_amount = dec(100, 0);
    let withdrawal_amount = dec(120, 0);

    assert_results(
        vec![
            Ok(Event::Transaction {
                kind: TransactionKind::Deposit,
                client_id,
                transaction_id: 1,
                amount: deposit_amount,
            }),
            Ok(Event::Transaction {
                kind: TransactionKind::Withdrawal,
                client_id,
                transaction_id: 2,
                amount: withdrawal_amount,
            }),
        ],
        HashMap::from([(client_id, Client::from(dec(0, 0), deposit_amount, false))]),
        vec![String::from("Insufficient funds.")],
    );
}

#[test]
fn processing_test_unsuccessful_withdrawal_due_to_existing_transaction() {
    let client_id = 1;
    let deposit_amount = dec(100, 0);

    assert_results(
        vec![
            Ok(Event::Transaction {
                kind: TransactionKind::Deposit,
                client_id,
                transaction_id: 1,
                amount: deposit_amount,
            }),
            Ok(Event::Transaction {
                kind: TransactionKind::Withdrawal,
                client_id,
                transaction_id: 1,
                amount: dec(100, 0),
            }),
        ],
        HashMap::from([(client_id, Client::from(dec(0, 0), deposit_amount, false))]),
        vec![String::from("Transaction already exists with id 1.")],
    );
}

#[test]
fn processing_test_successful_disputed_deposit() {
    let client_id = 1;
    let deposit_amount = dec(100, 0);
    let deposit_transaction_id = 2;

    assert_results(
        vec![
            Ok(Event::Transaction {
                kind: TransactionKind::Deposit,
                client_id,
                transaction_id: deposit_transaction_id,
                amount: deposit_amount,
            }),
            Ok(Event::DisputeStep {
                kind: DisputeStepKind::Dispute,
                client_id,
                transaction_id: deposit_transaction_id,
            }),
        ],
        HashMap::from([(
            client_id,
            Client::from(deposit_amount, deposit_amount, false),
        )]),
        vec![],
    );
}

#[test]
fn processing_test_unsuccessful_disputed_deposit_due_to_not_found_transaction() {
    let client_id = 1;
    let deposit_amount = dec(100, 0);
    let deposit_transaction_id = 2;

    assert_results(
        vec![
            Ok(Event::Transaction {
                kind: TransactionKind::Deposit,
                client_id,
                transaction_id: deposit_transaction_id,
                amount: deposit_amount,
            }),
            Ok(Event::DisputeStep {
                kind: DisputeStepKind::Dispute,
                client_id,
                transaction_id: 3,
            }),
        ],
        HashMap::from([(client_id, Client::from(dec(0, 0), deposit_amount, false))]),
        vec![String::from("Transaction 3 not found.")],
    );
}

#[test]
fn processing_test_unsuccessful_disputed_deposit_due_to_mismatched_client() {
    let client_id = 1;
    let deposit_amount = dec(100, 0);
    let deposit_transaction_id = 2;

    assert_results(
        vec![
            Ok(Event::Transaction {
                kind: TransactionKind::Deposit,
                client_id,
                transaction_id: deposit_transaction_id,
                amount: deposit_amount,
            }),
            Ok(Event::DisputeStep {
                kind: DisputeStepKind::Dispute,
                client_id: 3,
                transaction_id: deposit_transaction_id,
            }),
        ],
        HashMap::from([(client_id, Client::from(dec(0, 0), deposit_amount, false))]),
        vec![String::from(
            "Client id 3 does not match transaction client id 1.",
        )],
    );
}

#[test]
fn processing_test_unsuccessful_disputed_deposit_due_to_already_disputed() {
    let client_id = 1;
    let deposit_amount = dec(100, 0);
    let deposit_transaction_id = 2;

    assert_results(
        vec![
            Ok(Event::Transaction {
                kind: TransactionKind::Deposit,
                client_id,
                transaction_id: deposit_transaction_id,
                amount: deposit_amount,
            }),
            Ok(Event::DisputeStep {
                kind: DisputeStepKind::Dispute,
                client_id,
                transaction_id: deposit_transaction_id,
            }),
            Ok(Event::DisputeStep {
                kind: DisputeStepKind::Dispute,
                client_id,
                transaction_id: deposit_transaction_id,
            }),
        ],
        HashMap::from([(
            client_id,
            Client::from(deposit_amount, deposit_amount, false),
        )]),
        vec![String::from("Transaction is already disputed.")],
    );
}

#[test]
fn processing_test_unsuccessful_disputed_deposit_due_to_already_charged_back() {
    let client_id = 1;
    let deposit_amount = dec(100, 0);
    let deposit_transaction_id = 2;

    assert_results(
        vec![
            Ok(Event::Transaction {
                kind: TransactionKind::Deposit,
                client_id,
                transaction_id: deposit_transaction_id,
                amount: deposit_amount,
            }),
            Ok(Event::DisputeStep {
                kind: DisputeStepKind::Dispute,
                client_id,
                transaction_id: deposit_transaction_id,
            }),
            Ok(Event::DisputeStep {
                kind: DisputeStepKind::Chargeback,
                client_id,
                transaction_id: deposit_transaction_id,
            }),
            Ok(Event::DisputeStep {
                kind: DisputeStepKind::Dispute,
                client_id,
                transaction_id: deposit_transaction_id,
            }),
        ],
        HashMap::from([(client_id, Client::from(dec(0, 0), dec(0, 0), true))]),
        vec![String::from("Transaction has already been charged back.")],
    );
}

#[test]
fn processing_test_successful_disputed_deposit_after_resolved() {
    let client_id = 1;
    let deposit_amount = dec(100, 0);
    let deposit_transaction_id = 2;

    assert_results(
        vec![
            Ok(Event::Transaction {
                kind: TransactionKind::Deposit,
                client_id,
                transaction_id: deposit_transaction_id,
                amount: deposit_amount,
            }),
            Ok(Event::DisputeStep {
                kind: DisputeStepKind::Dispute,
                client_id,
                transaction_id: deposit_transaction_id,
            }),
            Ok(Event::DisputeStep {
                kind: DisputeStepKind::Resolve,
                client_id,
                transaction_id: deposit_transaction_id,
            }),
            Ok(Event::DisputeStep {
                kind: DisputeStepKind::Dispute,
                client_id,
                transaction_id: deposit_transaction_id,
            }),
        ],
        HashMap::from([(
            client_id,
            Client::from(deposit_amount, deposit_amount, false),
        )]),
        Vec::<String>::new(),
    );
}

#[test]
// worth verifying that we would not in fact create a transaction in this case.
fn processing_test_unsuccessful_disputed_withdrawal_due_to_unsuccessful_withdrawal() {
    let client_id = 1;
    let withdrawal_transaction_id = 2;

    assert_results(
        vec![
            Ok(Event::Transaction {
                kind: TransactionKind::Withdrawal,
                client_id,
                transaction_id: withdrawal_transaction_id,
                amount: dec(10, 0),
            }),
            Ok(Event::DisputeStep {
                kind: DisputeStepKind::Dispute,
                client_id,
                transaction_id: withdrawal_transaction_id,
            }),
        ],
        HashMap::from([(client_id, Client::from(dec(0, 0), dec(0, 0), false))]),
        vec![
            String::from("Insufficient funds."),
            String::from("Transaction 2 not found."),
        ],
    );
}

#[test]
fn processing_test_successful_resolved_deposit_dispute() {
    let client_id = 1;
    let deposit_amount = dec(100, 0);
    let deposit_transaction_id = 2;

    assert_results(
        vec![
            Ok(Event::Transaction {
                kind: TransactionKind::Deposit,
                client_id,
                transaction_id: deposit_transaction_id,
                amount: deposit_amount,
            }),
            Ok(Event::DisputeStep {
                kind: DisputeStepKind::Dispute,
                client_id,
                transaction_id: deposit_transaction_id,
            }),
            Ok(Event::DisputeStep {
                kind: DisputeStepKind::Resolve,
                client_id,
                transaction_id: deposit_transaction_id,
            }),
        ],
        HashMap::from([(client_id, Client::from(dec(0, 0), deposit_amount, false))]),
        Vec::<String>::new(),
    );
}

#[test]
fn processing_test_successful_resolved_withdrawal_dispute() {
    let client_id = 1;
    let deposit_amount = dec(100, 0);
    let deposit_transaction_id = 2;
    let withdrawal_amount = dec(20, 0);
    let withdrawal_transaction_id = 3;

    assert_results(
        vec![
            Ok(Event::Transaction {
                kind: TransactionKind::Deposit,
                client_id,
                transaction_id: deposit_transaction_id,
                amount: deposit_amount,
            }),
            Ok(Event::Transaction {
                kind: TransactionKind::Withdrawal,
                client_id,
                transaction_id: withdrawal_transaction_id,
                amount: withdrawal_amount,
            }),
            Ok(Event::DisputeStep {
                kind: DisputeStepKind::Dispute,
                client_id,
                transaction_id: withdrawal_transaction_id,
            }),
            Ok(Event::DisputeStep {
                kind: DisputeStepKind::Resolve,
                client_id,
                transaction_id: withdrawal_transaction_id,
            }),
        ],
        HashMap::from([(
            client_id,
            Client::from(dec(0, 0), minus(deposit_amount, withdrawal_amount), false),
        )]),
        Vec::<String>::new(),
    );
}

#[test]
fn processing_test_unsuccessful_resolved_dispute_due_to_lack_of_dispute() {
    let client_id = 1;
    let deposit_amount = dec(100, 0);
    let deposit_transaction_id = 2;

    assert_results(
        vec![
            Ok(Event::Transaction {
                kind: TransactionKind::Deposit,
                client_id,
                transaction_id: deposit_transaction_id,
                amount: deposit_amount,
            }),
            Ok(Event::DisputeStep {
                kind: DisputeStepKind::Resolve,
                client_id,
                transaction_id: deposit_transaction_id,
            }),
        ],
        HashMap::from([(client_id, Client::from(dec(0, 0), deposit_amount, false))]),
        vec![String::from("Transaction is not disputed.")],
    );
}

#[test]
fn processing_test_unsuccessful_resolved_dispute_due_to_double_resolve() {
    let client_id = 1;
    let deposit_amount = dec(100, 0);
    let deposit_transaction_id = 2;

    assert_results(
        vec![
            Ok(Event::Transaction {
                kind: TransactionKind::Deposit,
                client_id,
                transaction_id: deposit_transaction_id,
                amount: deposit_amount,
            }),
            Ok(Event::DisputeStep {
                kind: DisputeStepKind::Dispute,
                client_id,
                transaction_id: deposit_transaction_id,
            }),
            Ok(Event::DisputeStep {
                kind: DisputeStepKind::Resolve,
                client_id,
                transaction_id: deposit_transaction_id,
            }),
            Ok(Event::DisputeStep {
                kind: DisputeStepKind::Resolve,
                client_id,
                transaction_id: deposit_transaction_id,
            }),
        ],
        HashMap::from([(client_id, Client::from(dec(0, 0), deposit_amount, false))]),
        vec![String::from("Transaction is not disputed.")],
    );
}

#[test]
fn processing_test_unsuccessful_resolved_dispute_due_to_transaction_not_found() {
    let client_id = 1;
    let deposit_amount = dec(100, 0);
    let deposit_transaction_id = 2;

    assert_results(
        vec![
            Ok(Event::Transaction {
                kind: TransactionKind::Deposit,
                client_id,
                transaction_id: deposit_transaction_id,
                amount: deposit_amount,
            }),
            Ok(Event::DisputeStep {
                kind: DisputeStepKind::Dispute,
                client_id,
                transaction_id: deposit_transaction_id,
            }),
            Ok(Event::DisputeStep {
                kind: DisputeStepKind::Resolve,
                client_id,
                transaction_id: 3,
            }),
        ],
        HashMap::from([(
            client_id,
            Client::from(deposit_amount, deposit_amount, false),
        )]),
        vec![String::from("Transaction 3 not found.")],
    );
}

#[test]
fn processing_test_successful_deposit_chargeback() {
    let client_id = 1;
    let deposit_amount = dec(100, 0);
    let deposit_transaction_id = 2;

    assert_results(
        vec![
            Ok(Event::Transaction {
                kind: TransactionKind::Deposit,
                client_id,
                transaction_id: deposit_transaction_id,
                amount: deposit_amount,
            }),
            Ok(Event::DisputeStep {
                kind: DisputeStepKind::Dispute,
                client_id,
                transaction_id: deposit_transaction_id,
            }),
            Ok(Event::DisputeStep {
                kind: DisputeStepKind::Chargeback,
                client_id,
                transaction_id: deposit_transaction_id,
            }),
        ],
        HashMap::from([(client_id, Client::from(dec(0, 0), dec(0, 0), true))]),
        Vec::<String>::new(),
    );
}

#[test]
fn processing_test_successful_withdrawal_chargeback() {
    let client_id = 1;
    let deposit_transaction_id = 1;
    let deposit_amount = dec(100, 0);
    let withdrawal_amount = dec(20, 0);
    let withdrawal_transaction_id = 2;

    assert_results(
        vec![
            Ok(Event::Transaction {
                kind: TransactionKind::Deposit,
                client_id,
                transaction_id: deposit_transaction_id,
                amount: deposit_amount,
            }),
            Ok(Event::Transaction {
                kind: TransactionKind::Withdrawal,
                client_id,
                transaction_id: withdrawal_transaction_id,
                amount: withdrawal_amount,
            }),
            Ok(Event::DisputeStep {
                kind: DisputeStepKind::Dispute,
                client_id,
                transaction_id: withdrawal_transaction_id,
            }),
            Ok(Event::DisputeStep {
                kind: DisputeStepKind::Chargeback,
                client_id,
                transaction_id: withdrawal_transaction_id,
            }),
        ],
        HashMap::from([(client_id, Client::from(dec(0, 0), deposit_amount, true))]),
        Vec::<String>::new(),
    );
}

#[test]
fn processing_test_unsuccessful_chargeback_due_to_not_disputed() {
    let client_id = 1;
    let deposit_amount = dec(100, 0);
    let deposit_transaction_id = 2;

    assert_results(
        vec![
            Ok(Event::Transaction {
                kind: TransactionKind::Deposit,
                client_id,
                transaction_id: deposit_transaction_id,
                amount: deposit_amount,
            }),
            Ok(Event::DisputeStep {
                kind: DisputeStepKind::Chargeback,
                client_id,
                transaction_id: deposit_transaction_id,
            }),
        ],
        HashMap::from([(client_id, Client::from(dec(0, 0), deposit_amount, false))]),
        vec![String::from("Transaction is not disputed.")],
    );
}

#[test]
fn processing_test_unsuccessful_chargeback_due_to_not_found_transaction() {
    let client_id = 1;
    let deposit_amount = dec(100, 0);
    let deposit_transaction_id = 2;

    assert_results(
        vec![
            Ok(Event::Transaction {
                kind: TransactionKind::Deposit,
                client_id,
                transaction_id: deposit_transaction_id,
                amount: deposit_amount,
            }),
            Ok(Event::DisputeStep {
                kind: DisputeStepKind::Chargeback,
                client_id,
                transaction_id: 3,
            }),
        ],
        HashMap::from([(client_id, Client::from(dec(0, 0), deposit_amount, false))]),
        vec![String::from("Transaction 3 not found.")],
    );
}

#[test]
fn processing_test_unsuccessful_chargeback_due_to_mismatched_client() {
    let client_id = 1;
    let deposit_amount = dec(100, 0);
    let deposit_transaction_id = 2;

    assert_results(
        vec![
            Ok(Event::Transaction {
                kind: TransactionKind::Deposit,
                client_id,
                transaction_id: deposit_transaction_id,
                amount: deposit_amount,
            }),
            Ok(Event::DisputeStep {
                kind: DisputeStepKind::Chargeback,
                client_id: 3,
                transaction_id: deposit_transaction_id,
            }),
        ],
        HashMap::from([(client_id, Client::from(dec(0, 0), deposit_amount, false))]),
        vec![String::from(
            "Client id 3 does not match transaction client id 1.",
        )],
    );
}

#[test]
fn test_disputed_deposit_after_equivalent_withdrawal() {
    let client_id = 1;
    let deposit_amount = dec(100, 0);
    let deposit_transaction_id = 1;
    let withdrawal_transaction_id = 2;

    assert_results(
        vec![
            Ok(Event::Transaction {
                kind: TransactionKind::Deposit,
                client_id,
                transaction_id: deposit_transaction_id,
                amount: deposit_amount,
            }),
            Ok(Event::Transaction {
                kind: TransactionKind::Withdrawal,
                client_id,
                transaction_id: withdrawal_transaction_id,
                amount: deposit_amount,
            }),
            Ok(Event::DisputeStep {
                kind: DisputeStepKind::Dispute,
                client_id,
                transaction_id: deposit_transaction_id,
            }),
        ],
        HashMap::from([(client_id, Client::from(deposit_amount, dec(0, 0), false))]),
        vec![],
    );
}

#[test]
fn test_disputed_withdrawal_after_equivalent_deposit() {
    let client_id = 1;
    let deposit_amount = dec(100, 0);
    let deposit_transaction_id = 1;
    let withdrawal_transaction_id = 2;

    assert_results(
        vec![
            Ok(Event::Transaction {
                kind: TransactionKind::Deposit,
                client_id,
                transaction_id: deposit_transaction_id,
                amount: deposit_amount,
            }),
            Ok(Event::Transaction {
                kind: TransactionKind::Withdrawal,
                client_id,
                transaction_id: withdrawal_transaction_id,
                amount: deposit_amount,
            }),
            Ok(Event::DisputeStep {
                kind: DisputeStepKind::Dispute,
                client_id,
                transaction_id: withdrawal_transaction_id,
            }),
        ],
        HashMap::from([(client_id, Client::from(dec(-100, 0), dec(0, 0), false))]),
        vec![],
    );
}
