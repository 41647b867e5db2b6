//! All accounts of a run, by client.

use crate::account::{AccountState, User};
use crate::error::AppError;
use crate::text::texts;
use crate::transaction::TransactionInput;
use std::collections::HashMap;
use vstd::prelude::*;
use vstd::std_specs::iter::IteratorSpec;

verus! {

/// Whether every account is filed under its own client id.
pub open spec fn filed_by_client(accounts: Map<u16, User>) -> bool {
    forall|client: u16| #[trigger] accounts.contains_key(client) ==> accounts[client].id == client
}

/// The accounts as the contracts see them.
pub open spec fn states(accounts: Map<u16, User>) -> Map<u16, AccountState> {
    accounts.map_values(|user: User| user@)
}

/// A client's account, which is a new one until the client's first record.
pub open spec fn account_of(accounts: Map<u16, AccountState>, client: u16) -> AccountState {
    if accounts.contains_key(client) {
        accounts[client]
    } else {
        AccountState::fresh(client)
    }
}

/// The accounts after one record: the account of the record's client, opened
/// if need be, takes the record; no other account changes.
pub open spec fn after_record(
    accounts: Map<u16, AccountState>,
    tx: TransactionInput,
) -> Map<u16, AccountState> {
    accounts.insert(tx.client_id(), account_of(accounts, tx.client_id()).step(tx))
}

/// Hands a record to the account of its client, opening the account first if
/// this is the client's first record.
pub fn process_record(accounts: &mut HashMap<u16, User>, tx: TransactionInput) -> (outcome: Result<
    (),
    AppError,
>)
    requires
        old(accounts)@.contains_key(tx.client_id()) ==> old(accounts)@[tx.client_id()].id
            == tx.client_id(),
    ensures
        outcome is Ok,
        filed_by_client(old(accounts)@) ==> filed_by_client(final(accounts)@),
        states(final(accounts)@) == after_record(states(old(accounts)@), tx),
{
    let client_id = tx.client_id();
    let mut client = match accounts.remove(&client_id) {
        Some(client) => client,
        None => User::new(client_id),
    };
    let outcome = client.process_tx_input(tx);
    accounts.insert(client_id, client);
    assert(states(accounts@) =~= after_record(states(old(accounts)@), tx));
    outcome
}

/// Whether `lines` is a report on `accounts`: the header first, then one line
/// for each account, in some order.
pub open spec fn reports_on(lines: Seq<Seq<char>>, accounts: Map<u16, User>) -> bool {
    &&& lines.len() == accounts.len() + 1
    &&& lines[0] == "client,available,held,total,locked"@
    &&& exists|order: Seq<u16>| #[trigger] reports_in_order(lines, accounts, order)
}

/// Whether the lines after the header are those of the accounts of the clients
/// in `order`, each account once.
pub open spec fn reports_in_order(
    lines: Seq<Seq<char>>,
    accounts: Map<u16, User>,
    order: Seq<u16>,
) -> bool {
    &&& order.len() == accounts.len()
    &&& order.len() + 1 == lines.len()
    &&& order.no_duplicates()
    &&& forall|i: int|
        0 <= i < order.len() ==> accounts.contains_key(#[trigger] order[i]) && lines[i + 1]
            == accounts[order[i]]@.csv_row()
}

/// The clients of the first `n` of `items`, in their order.
spec fn clients_among(items: Seq<(&u16, &User)>, n: int) -> Seq<u16> {
    Seq::new(n as nat, |i: int| *items[i].0)
}

/// The report on all accounts: the header, then a line for each account. The
/// order of the accounts is not fixed.
pub fn report(accounts: &HashMap<u16, User>) -> (lines: Vec<String>)
    ensures
        reports_on(texts(lines@), accounts@),
{
    let mut lines: Vec<String> = Vec::new();
    lines.push(User::csv_header().to_string());
    let ghost items = accounts.iter().remaining();
    let ghost mut done: int = 0;
    for item in it: accounts.iter()
        invariant
            items == accounts.iter().remaining(),
            items == it.seq(),
            items.no_duplicates(),
            done == it.index(),
            lines@.len() == done + 1,
            lines@[0]@ == "client,available,held,total,locked"@,
            forall|i: int| 0 <= i < done ==> (#[trigger] lines@[i + 1])@ == (*items[i].1)@.csv_row(),
    {
        let (_, client) = item;
        lines.push(client.to_csv_row());
        proof {
            done = done + 1;
        }
    }
    proof {
        let texts = texts(lines@);
        let order = clients_among(items, done);
        assert(done == items.len());
        assert forall|i: int| 0 <= i < order.len() implies accounts@.contains_key(
            #[trigger] order[i],
        ) && texts[i + 1] == accounts@[order[i]]@.csv_row() by {
            assert(accounts@.contains_key(*items[i].0));
            assert(accounts@[*items[i].0] == *items[i].1);
            assert(texts[i + 1] == lines@[i + 1]@);
        }
        assert forall|i: int, j: int| 0 <= i < order.len() && 0 <= j < order.len() && i != j implies order[i] != order[j] by {
            if order[i] == order[j] {
                assert(accounts@.contains_key(*items[i].0));
                assert(accounts@.contains_key(*items[j].0));
                assert(items[i] == items[j]);
            }
        }
        assert(texts[0] == lines@[0]@);
        assert(reports_in_order(texts, accounts@, order));
    }
    lines
}

} // verus!
