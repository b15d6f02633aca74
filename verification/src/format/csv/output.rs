//! From the accounts at the end of a run to the records of the report.

use crate::amount::Amount;
use crate::model::{Client, ClientID};
use std::collections::HashMap;
use vstd::prelude::*;

verus! {

/// A record of the report: one client with its balances.
#[derive(Clone, Copy, Debug, PartialEq, Eq)]
pub struct CsvClient {
    pub client: ClientID,
    pub available: Amount,
    pub held: Amount,
    pub total: Amount,
    pub locked: bool,
}

/// Whether `row` is the record of `client` under the identifier
/// `client_id`.
pub open spec fn is_row_of(row: CsvClient, client_id: ClientID, client: Client) -> bool {
    &&& row.client == client_id
    &&& Some(row.available) == client.spec_available()
    &&& row.held == client.held
    &&& row.total == client.total
    &&& row.locked == client.locked
}

/// The record of one client.
pub fn csv_client_from_client(client_id: ClientID, client: Client) -> (row: CsvClient)
    requires
        client.spec_available() is Some,
    ensures
        is_row_of(row, client_id, client),
{
    CsvClient {
        client: client_id,
        available: client.available(),
        held: client.held(),
        total: client.total(),
        locked: client.locked(),
    }
}

/// Whether `rows` is the report on `clients`: a record for each client and
/// for nothing else, in ascending order of the client identifiers.
pub open spec fn is_report_of(rows: Seq<CsvClient>, clients: Map<ClientID, Client>) -> bool {
    &&& forall|i: int, j: int|
        0 <= i < j < rows.len() ==> (#[trigger] rows[i]).client < (#[trigger] rows[j]).client
    &&& forall|i: int|
        0 <= i < rows.len() ==> clients.contains_key((#[trigger] rows[i]).client) && is_row_of(
            rows[i],
            rows[i].client,
            clients[rows[i].client],
        )
    &&& forall|id: ClientID| #[trigger]
        clients.contains_key(id) ==> exists|i: int|
            0 <= i < rows.len() && (#[trigger] rows[i]).client == id
}

/// Whether the available balance of every client is in the range of decimal
/// amounts.
pub open spec fn all_available(clients: Map<ClientID, Client>) -> bool {
    forall|id: ClientID| #[trigger]
        clients.contains_key(id) ==> clients[id].spec_available() is Some
}

/// The records of the report: one for each client, in ascending order of the
/// client identifiers. There is no report, and the result is `None`, where
/// the available balance of some client is out of the range of decimal
/// amounts.
pub fn convert_to_csv_clients(clients_by_id: HashMap<ClientID, Client>) -> (res: Option<
    Vec<CsvClient>,
>)
    ensures
        res is Some <==> all_available(clients_by_id@),
        res matches Some(rows) ==> is_report_of(rows@, clients_by_id@),
{
    let mut rows: Vec<CsvClient> = Vec::new();
    let mut next: u32 = 0;
    while next <= 0xFFFF
        invariant
            next <= 0x1_0000,
            forall|i: int, j: int|
                0 <= i < j < rows@.len() ==> (#[trigger] rows@[i]).client < (
                #[trigger] rows@[j]).client,
            forall|i: int|
                0 <= i < rows@.len() ==> (#[trigger] rows@[i]).client < next
                    && clients_by_id@.contains_key(rows@[i].client) && is_row_of(
                    rows@[i],
                    rows@[i].client,
                    clients_by_id@[rows@[i].client],
                ),
            forall|id: ClientID| #[trigger]
                clients_by_id@.contains_key(id) && id < next ==> clients_by_id@[id].spec_available()
                    is Some && exists|i: int|
                    0 <= i < rows@.len() && (#[trigger] rows@[i]).client == id,
        decreases 0x1_0000 - next,
    {
        let client_id: ClientID = next as ClientID;
        match clients_by_id.get(&client_id) {
            Some(client) => {
                if client.total().checked_sub(client.held()).is_none() {
                    return None;
                }
                let row = csv_client_from_client(client_id, *client);
                let ghost before = rows@;
                rows.push(row);
                assert forall|id: ClientID| #[trigger]
                    clients_by_id@.contains_key(id) && id < next + 1 implies exists|i: int|
                    0 <= i < rows@.len() && (#[trigger] rows@[i]).client == id by {
                    if id < next {
                        let i = choose|i: int|
                            0 <= i < before.len() && (#[trigger] before[i]).client == id;
                        assert(rows@[i].client == id);
                    } else {
                        assert(rows@[rows@.len() - 1].client == id);
                    }
                }
            },
            None => {},
        }
        next = next + 1;
    }
    assert forall|id: ClientID| #[trigger] clients_by_id@.contains_key(id) implies clients_by_id@[id].spec_available()
        is Some && exists|i: int| 0 <= i < rows@.len() && (#[trigger] rows@[i]).client == id by {
        assert(id < next);
    }
    assert(is_report_of(rows@, clients_by_id@));
    Some(rows)
}

} // verus!
