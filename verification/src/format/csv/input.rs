//! From a record of the input file to an event.

use crate::amount::{decimal_from_text, Amount};
use crate::model::{ClientID, DisputeStepKind, Event, TransactionID, TransactionKind};
use vstd::prelude::*;
use vstd::string::StringExecFns;

verus! {

/// A record of the input file, as its columns `type`, `client`, `tx` and
/// `amount` give it. The amount is kept as text: dispute steps leave it
/// empty.
#[derive(Debug)]
pub struct CsvEvent {
    pub kind: String,
    pub transaction_id: TransactionID,
    pub client_id: ClientID,
    pub amount: String,
}

/// Why a record is no event.
#[derive(Debug, PartialEq, Eq)]
pub enum ParseError {
    /// The `type` column holds none of the five event kinds.
    UnknownEventKind { kind: String },
    /// A deposit or a withdrawal without an amount.
    MissingAmount,
    /// The amount is no decimal number; `reason` is the parser's complaint.
    InvalidAmount { reason: String },
}

/// Whether `res` is what the amount column `text` of a deposit or withdrawal
/// parses to: the decimal amount that it spells, or the reason why there is
/// none.
pub open spec fn is_amount_of(text: Seq<char>, res: Result<Amount, ParseError>) -> bool {
    if text.len() == 0 {
        res == Err::<Amount, ParseError>(ParseError::MissingAmount)
    } else {
        match decimal_from_text(text) {
            Some(amount) => res == Ok::<Amount, ParseError>(amount),
            None => res matches Err(ParseError::InvalidAmount { .. }),
        }
    }
}

/// Whether `res` is what the record parses to.
///
/// `deposit` and `withdrawal` need an amount; `dispute`, `resolve` and
/// `chargeback` take none and ignore what the column holds. Any other kind
/// is rejected with the kind as it was given.
pub open spec fn is_event_of(record: CsvEvent, res: Result<Event, ParseError>) -> bool {
    let transaction_id = record.transaction_id;
    let client_id = record.client_id;
    if record.kind@ == "deposit"@ || record.kind@ == "withdrawal"@ {
        let kind = if record.kind@ == "deposit"@ {
            TransactionKind::Deposit
        } else {
            TransactionKind::Withdrawal
        };
        match res {
            Ok(event) => is_amount_of(record.amount@, Ok(event.amount())) && event == (
            Event::Transaction { kind, transaction_id, client_id, amount: event.amount() }),
            Err(e) => is_amount_of(record.amount@, Err(e)),
        }
    } else if record.kind@ == "dispute"@ {
        res == Ok::<Event, ParseError>(
            Event::DisputeStep { kind: DisputeStepKind::Dispute, transaction_id, client_id },
        )
    } else if record.kind@ == "resolve"@ {
        res == Ok::<Event, ParseError>(
            Event::DisputeStep { kind: DisputeStepKind::Resolve, transaction_id, client_id },
        )
    } else if record.kind@ == "chargeback"@ {
        res == Ok::<Event, ParseError>(
            Event::DisputeStep { kind: DisputeStepKind::Chargeback, transaction_id, client_id },
        )
    } else {
        res matches Err(ParseError::UnknownEventKind { kind }) && kind@ == record.kind@
    }
}

/// Reads the amount column of a deposit or a withdrawal.
pub fn parse_amount(amount: &str) -> (res: Result<Amount, ParseError>)
    ensures
        is_amount_of(amount@, res),
{
    if amount.is_empty() {
        return Err(ParseError::MissingAmount);
    }
    match Amount::parse(amount) {
        Ok(amount) => Ok(amount),
        Err(reason) => Err(ParseError::InvalidAmount { reason }),
    }
}

/// Turns a record of the input file into an event.
pub fn parse_csv_event(csv_event: CsvEvent) -> (res: Result<Event, ParseError>)
    ensures
        is_event_of(csv_event, res),
{
    let transaction_id = csv_event.transaction_id;
    let client_id = csv_event.client_id;
    if csv_event.kind == String::from_str("deposit") {
        match parse_amount(csv_event.amount.as_str()) {
            Ok(amount) => Ok(
                Event::Transaction {
                    kind: TransactionKind::Deposit,
                    transaction_id,
                    client_id,
                    amount,
                },
            ),
            Err(e) => Err(e),
        }
    } else if csv_event.kind == String::from_str("withdrawal") {
        match parse_amount(csv_event.amount.as_str()) {
            Ok(amount) => Ok(
                Event::Transaction {
                    kind: TransactionKind::Withdrawal,
                    transaction_id,
                    client_id,
                    amount,
                },
            ),
            Err(e) => Err(e),
        }
    } else if csv_event.kind == String::from_str("dispute") {
        Ok(Event::DisputeStep { kind: DisputeStepKind::Dispute, transaction_id, client_id })
    } else if csv_event.kind == String::from_str("resolve") {
        Ok(Event::DisputeStep { kind: DisputeStepKind::Resolve, transaction_id, client_id })
    } else if csv_event.kind == String::from_str("chargeback") {
        Ok(Event::DisputeStep { kind: DisputeStepKind::Chargeback, transaction_id, client_id })
    } else {
        Err(ParseError::UnknownEventKind { kind: csv_event.kind })
    }
}

impl ParseError {
    /// The line of text that describes this failure. For an invalid amount
    /// it is the parser's complaint as it came.
    pub open spec fn message_text(self) -> Seq<char> {
        match self {
            ParseError::UnknownEventKind { kind } => "Unknown event kind: "@ + kind@ + "."@,
            ParseError::MissingAmount => "Missing amount."@,
            ParseError::InvalidAmount { reason } => reason@,
        }
    }

    /// Renders the failure as one line of text, without a line end.
    pub fn message(&self) -> (s: String)
        ensures
            s@ == self.message_text(),
    {
        match self {
            ParseError::UnknownEventKind { kind } => {
                let mut s = String::from_str("Unknown event kind: ");
                s.append(kind.as_str());
                s.append(".");
                s
            },
            ParseError::MissingAmount => String::from_str("Missing amount."),
            ParseError::InvalidAmount { reason } => reason.clone(),
        }
    }
}

} // verus!
