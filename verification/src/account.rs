//! Client accounts: the entries they hold, the balances those entries add up
//! to, and what each kind of record does to them.

use crate::error::AppError;
use crate::transaction::{Transaction, TransactionInput, TransactionSide, TransactionStatus};
use std::collections::HashMap;
use vstd::prelude::*;
use vstd::std_specs::iter::IteratorSpec;

verus! {

/// The two sums an account draws from its entries.
#[derive(Debug, Clone, Copy, PartialEq, Eq, Structural)]
pub enum Fund {
    Available,
    Held,
}

/// How many transaction ids there are.
pub open spec fn id_space() -> nat {
    0x1_0000_0000
}

/// What one entry adds to a fund, in ticks.
///
/// Deposits count towards `Available` while `Normal` or resolved, and towards
/// `Held` while `Disputed`; withdrawals count against `Available` while
/// `Normal` or resolved. Every other entry counts for nothing.
pub open spec fn share(fund: Fund, entry: Transaction) -> int {
    match fund {
        Fund::Available => match (entry.side, entry.status) {
            (TransactionSide::Deposit, TransactionStatus::Normal) => entry.amount as int,
            (TransactionSide::Deposit, TransactionStatus::Solved(false)) => entry.amount as int,
            (TransactionSide::Withdrawal, TransactionStatus::Normal) => -(entry.amount as int),
            (TransactionSide::Withdrawal, TransactionStatus::Solved(false)) => -(entry.amount as int),
            _ => 0,
        },
        Fund::Held => match (entry.side, entry.status) {
            (TransactionSide::Deposit, TransactionStatus::Disputed) => entry.amount as int,
            _ => 0,
        },
    }
}

/// What the entry filed under `id`, if there is one, adds to a fund.
pub open spec fn share_at(fund: Fund, entries: Map<u32, Transaction>, id: u32) -> int {
    if entries.contains_key(id) {
        share(fund, entries[id])
    } else {
        0
    }
}

/// The shares of the entries filed under the ids below `bound`, added up.
pub open spec fn sum_below(fund: Fund, entries: Map<u32, Transaction>, bound: nat) -> int
    recommends
        bound <= id_space(),
    decreases bound,
{
    if bound == 0 {
        0
    } else {
        sum_below(fund, entries, (bound - 1) as nat) + share_at(fund, entries, (bound - 1) as u32)
    }
}

/// Two sets of entries that agree on every id but `id` have sums that differ
/// by what they hold under `id`.
pub proof fn lemma_sum_one_id_differs(
    fund: Fund,
    a: Map<u32, Transaction>,
    b: Map<u32, Transaction>,
    id: u32,
    bound: nat,
)
    requires
        bound <= id_space(),
        forall|k: u32| k != id ==> (a.contains_key(k) <==> b.contains_key(k)),
        forall|k: u32| k != id && a.contains_key(k) ==> a[k] == b[k],
    ensures
        sum_below(fund, b, bound) - sum_below(fund, a, bound) == if id < bound {
            share_at(fund, b, id) - share_at(fund, a, id)
        } else {
            0
        },
    decreases bound,
{
    if bound > 0 {
        lemma_sum_one_id_differs(fund, a, b, id, (bound - 1) as nat);
        let last = (bound - 1) as u32;
        if last != id {
            assert(a.contains_key(last) <==> b.contains_key(last));
        }
    }
}

/// Where nothing is filed, every sum is 0.
pub proof fn lemma_sum_of_nothing(fund: Fund, entries: Map<u32, Transaction>, bound: nat)
    requires
        bound <= id_space(),
        forall|k: u32| !entries.contains_key(k),
    ensures
        sum_below(fund, entries, bound) == 0,
    decreases bound,
{
    if bound > 0 {
        lemma_sum_of_nothing(fund, entries, (bound - 1) as nat);
    }
}

/// No entry moves a fund by more than 2^31 ticks, so no sum leaves
/// `-bound * 2^31 ..= bound * 2^31`.
pub proof fn lemma_sum_bounded(fund: Fund, entries: Map<u32, Transaction>, bound: nat)
    requires
        bound <= id_space(),
    ensures
        -(bound * 0x8000_0000) <= sum_below(fund, entries, bound) <= bound * 0x8000_0000,
    decreases bound,
{
    if bound > 0 {
        lemma_sum_bounded(fund, entries, (bound - 1) as nat);
    }
}

/// An account as the contracts see it.
pub struct AccountState {
    pub id: u16,
    pub locked: bool,
    pub entries: Map<u32, Transaction>,
}

impl AccountState {
    /// An account nothing has happened to.
    pub open spec fn fresh(id: u16) -> Self {
        AccountState { id, locked: false, entries: Map::empty() }
    }

    /// A fund before any floor is applied: the shares of all entries, added up.
    pub open spec fn sum(self, fund: Fund) -> int {
        sum_below(fund, self.entries, id_space())
    }

    /// Ticks free to withdraw: the `Available` sum, or 0 where that is negative.
    pub open spec fn available(self) -> int {
        if self.sum(Fund::Available) < 0 {
            0
        } else {
            self.sum(Fund::Available)
        }
    }

    /// Ticks under dispute.
    pub open spec fn held(self) -> int {
        self.sum(Fund::Held)
    }

    pub open spec fn total(self) -> int {
        self.available() + self.held()
    }

    /// The account with `entry` filed under its id.
    pub open spec fn file(self, entry: Transaction) -> Self {
        AccountState { entries: self.entries.insert(entry.id, entry), ..self }
    }

    /// The account with the entry under `id` moved to `status`.
    pub open spec fn mark(self, id: u32, status: TransactionStatus) -> Self {
        AccountState {
            entries: self.entries.insert(id, self.entries[id].with_status(status)),
            ..self
        }
    }

    /// Whether the entry under `id` exists and has `status`.
    pub open spec fn has_status(self, id: u32, status: TransactionStatus) -> bool {
        self.entries.contains_key(id) && self.entries[id].status == status
    }

    /// Whether a record applies to the account. One that does not is dropped.
    ///
    /// Nothing applies to a locked account. A deposit applies if its id is
    /// free; a withdrawal likewise, and only if the available ticks cover it.
    /// A dispute applies to a `Normal` deposit, a resolve or a chargeback to a
    /// `Disputed` entry.
    pub open spec fn applies(self, tx: TransactionInput) -> bool {
        !self.locked && match tx {
            TransactionInput::Deposit(id, _, _) => !self.entries.contains_key(id),
            TransactionInput::Withdrawal(id, _, amount) => !self.entries.contains_key(id)
                && self.available() >= amount,
            TransactionInput::Dispute(id, _) => self.has_status(id, TransactionStatus::Normal)
                && self.entries[id].side == TransactionSide::Deposit,
            TransactionInput::Resolve(id, _) => self.has_status(id, TransactionStatus::Disputed),
            TransactionInput::Chargeback(id, _) => self.has_status(
                id,
                TransactionStatus::Disputed,
            ),
        }
    }

    /// The account after one record.
    ///
    /// A record that does not apply leaves the account as it was. A deposit
    /// or withdrawal that applies is filed as a `Normal` entry. A dispute
    /// moves its entry to `Disputed`, a resolve to `Solved(false)`, a
    /// chargeback to `Solved(true)`, and the chargeback locks the account.
    pub open spec fn step(self, tx: TransactionInput) -> Self {
        if !self.applies(tx) {
            self
        } else {
            match tx {
                TransactionInput::Deposit(id, client_id, amount) => self.file(
                    Transaction::fresh(id, client_id, TransactionSide::Deposit, amount),
                ),
                TransactionInput::Withdrawal(id, client_id, amount) => self.file(
                    Transaction::fresh(id, client_id, TransactionSide::Withdrawal, amount),
                ),
                TransactionInput::Dispute(id, _) => self.mark(id, TransactionStatus::Disputed),
                TransactionInput::Resolve(id, _) => self.mark(
                    id,
                    TransactionStatus::Solved(false),
                ),
                TransactionInput::Chargeback(id, _) => AccountState {
                    locked: true,
                    ..self.mark(id, TransactionStatus::Solved(true))
                },
            }
        }
    }

    /// The account after a run of records, first to last.
    pub open spec fn replay(self, txs: Seq<TransactionInput>) -> Self
        decreases txs.len(),
    {
        if txs.len() == 0 {
            self
        } else {
            self.replay(txs.drop_last()).step(txs.last())
        }
    }

    /// Every entry is filed under its own id and belongs to this client.
    pub open spec fn well_formed(self) -> bool {
        forall|id: u32| #[trigger]
            self.entries.contains_key(id) ==> self.entries[id].id == id
                && self.entries[id].client_id == self.id
    }
}

/// A client's account. Balances are worked out from `transactions` on demand.
pub struct User {
    pub id: u16,
    pub locked: bool,
    pub transactions: HashMap<u32, Transaction>,
}

impl View for User {
    type V = AccountState;

    open spec fn view(&self) -> AccountState {
        AccountState { id: self.id, locked: self.locked, entries: self.transactions@ }
    }
}

/// The ids of the first `n` of `items`.
spec fn ids_among(items: Seq<(&u32, &Transaction)>, n: int) -> Set<u32> {
    Set::new(|id: u32| exists|i: int| 0 <= i < n && *(#[trigger] items[i]).0 == id)
}

fn share_of(fund: Fund, entry: &Transaction) -> (ticks: i64)
    ensures
        ticks == share(fund, *entry),
{
    let amount: i64 = entry.amount as i64;
    match fund {
        Fund::Available => match (entry.side, entry.status) {
            (TransactionSide::Deposit, TransactionStatus::Normal)
            | (TransactionSide::Deposit, TransactionStatus::Solved(false)) => amount,
            (TransactionSide::Withdrawal, TransactionStatus::Normal)
            | (TransactionSide::Withdrawal, TransactionStatus::Solved(false)) => -amount,
            _ => 0,
        },
        Fund::Held => match (entry.side, entry.status) {
            (TransactionSide::Deposit, TransactionStatus::Disputed) => amount,
            _ => 0,
        },
    }
}

impl User {
    pub fn new(id: u16) -> (user: Self)
        ensures
            user@ == AccountState::fresh(id),
            user@.well_formed(),
    {
        Self { id, locked: false, transactions: HashMap::new() }
    }

    /// Takes one record in. Records that do not apply are dropped without a
    /// trace: the account is then exactly as it was.
    pub fn process_tx_input(&mut self, tx: TransactionInput) -> (outcome: Result<(), AppError>)
        requires
            tx.client_id() == old(self).id,
        ensures
            outcome is Ok,
            final(self)@ == old(self)@.step(tx),
            old(self)@.well_formed() ==> final(self)@.well_formed(),
    {
        if self.locked {
            return Ok(());
        }
        let tx_id = tx.id();
        let found: Option<Transaction> = match self.transactions.get(&tx_id) {
            Some(entry) => Some(*entry),
            None => None,
        };
        match (tx, found) {
            (TransactionInput::Deposit(id, client_id, amount), None) => {
                self.transactions.insert(
                    id,
                    Transaction::new(id, client_id, TransactionSide::Deposit, amount),
                );
            },
            (TransactionInput::Withdrawal(id, client_id, amount), None) => {
                if self.available() >= amount as i128 {
                    self.transactions.insert(
                        id,
                        Transaction::new(id, client_id, TransactionSide::Withdrawal, amount),
                    );
                }
            },
            (TransactionInput::Dispute(_, _), Some(found_tx)) => {
                if found_tx.side == TransactionSide::Deposit && found_tx.status
                    == TransactionStatus::Normal {
                    self.transactions.insert(
                        tx_id,
                        Transaction { status: TransactionStatus::Disputed, ..found_tx },
                    );
                }
            },
            (TransactionInput::Resolve(_, _), Some(found_tx)) => {
                if found_tx.status == TransactionStatus::Disputed {
                    self.transactions.insert(
                        tx_id,
                        Transaction { status: TransactionStatus::Solved(false), ..found_tx },
                    );
                }
            },
            (TransactionInput::Chargeback(_, _), Some(found_tx)) => {
                if found_tx.status == TransactionStatus::Disputed {
                    self.transactions.insert(
                        tx_id,
                        Transaction { status: TransactionStatus::Solved(true), ..found_tx },
                    );
                    self.locked = true;
                }
            },
            (_, _) => {},
        }
        assert(self@.entries =~= old(self)@.step(tx).entries);
        Ok(())
    }

    /// Ticks free to withdraw; never negative.
    pub fn available(&self) -> (ticks: i128)
        ensures
            ticks == self@.available(),
            ticks >= 0,
    {
        let raw = self.sum(Fund::Available);
        if raw < 0 {
            0
        } else {
            raw
        }
    }

    /// Ticks under dispute.
    pub fn held(&self) -> (ticks: i128)
        ensures
            ticks == self@.held(),
    {
        self.sum(Fund::Held)
    }

    /// Available and held ticks together.
    pub fn total(&self) -> (ticks: i128)
        ensures
            ticks == self@.total(),
            ticks == self@.available() + self@.held(),
    {
        proof {
            lemma_sum_bounded(Fund::Available, self@.entries, id_space());
            lemma_sum_bounded(Fund::Held, self@.entries, id_space());
        }
        self.available() + self.held()
    }

    /// Adds up one fund over all entries.
    fn sum(&self, fund: Fund) -> (ticks: i128)
        ensures
            ticks == self@.sum(fund),
    {
        let mut acc: i128 = 0;
        let ghost entries = self.transactions@;
        let ghost items = self.transactions.iter().remaining();
        let ghost mut done: int = 0;
        proof {
            lemma_sum_of_nothing(fund, entries.restrict(ids_among(items, 0)), id_space());
        }
        for item in it: self.transactions.iter()
            invariant
                entries == self.transactions@,
                items == self.transactions.iter().remaining(),
                items == it.seq(),
                items.no_duplicates(),
                done == it.index(),
                acc == sum_below(fund, entries.restrict(ids_among(items, done)), id_space()),
        {
            let (id, entry) = item;
            proof {
                let before = entries.restrict(ids_among(items, done));
                let after = entries.restrict(ids_among(items, done + 1));
                assert(item == items[done]);
                assert(entries.contains_key(*items[done].0));
                assert(entries[*items[done].0] == *items[done].1);
                assert(!ids_among(items, done).contains(*id)) by {
                    if ids_among(items, done).contains(*id) {
                        let i = choose|i: int| 0 <= i < done && *(#[trigger] items[i]).0 == *id;
                        assert(entries.contains_key(*items[i].0));
                        assert(items[i] == items[done]);
                    }
                }
                assert(ids_among(items, done + 1).contains(*id));
                assert forall|k: u32| k != *id implies (before.contains_key(k)
                    <==> after.contains_key(k)) by {
                    if ids_among(items, done + 1).contains(k) {
                        let i = choose|i: int| 0 <= i < done + 1 && *(#[trigger] items[i]).0 == k;
                        assert(0 <= i < done && *items[i].0 == k);
                    }
                }
                lemma_sum_one_id_differs(fund, before, after, *id, id_space());
                lemma_sum_bounded(fund, before, id_space());
                done = done + 1;
            }
            acc = acc + share_of(fund, entry) as i128;
        }
        proof {
            assert(done == items.len());
            assert forall|k: u32| entries.contains_key(k) implies ids_among(items, done).contains(
                k,
            ) by {
                assert(items.contains((&k, &entries[k])));
                let i = choose|i: int| 0 <= i < items.len() && items[i] == (&k, &entries[k]);
                assert(*items[i].0 == k);
            }
            assert(entries.restrict(ids_among(items, done)) =~= entries);
        }
        acc
    }
}

} // verus!
