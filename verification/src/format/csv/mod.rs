//! The records of the CSV format: events on the way in, accounts on the way
//! out. Reading and writing the files themselves is left to the caller.

pub mod input;
pub mod output;

pub use input::{parse_amount, parse_csv_event, CsvEvent, ParseError};
pub use output::{convert_to_csv_clients, csv_client_from_client, CsvClient};
