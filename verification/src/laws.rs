//! What holds of every account, whatever records it is given.

use crate::account::{id_space, lemma_sum_of_nothing, lemma_sum_one_id_differs, share, AccountState, Fund};
use crate::transaction::{
    Transaction, TransactionInput, TransactionSide, TransactionStatus, TransactionType,
};
use vstd::prelude::*;

verus! {

/// Whether an entry may pass from status `from` to status `to` in one step:
/// it stays, or goes from `Normal` to `Disputed`, or from `Disputed` to `Solved`.
pub open spec fn moves_forward(from: TransactionStatus, to: TransactionStatus) -> bool {
    ||| to == from
    ||| from == TransactionStatus::Normal && to == TransactionStatus::Disputed
    ||| from == TransactionStatus::Disputed && to is Solved
}

/// After any run of records on a new account, the total is the available
/// ticks plus the held ticks.
pub proof fn lemma_total_is_available_plus_held(id: u16, txs: Seq<TransactionInput>)
    ensures
        ({
            let account = AccountState::fresh(id).replay(txs);
            account.available() + account.held() == account.total()
        }),
{
}

/// Whatever the account and whatever the record, the available ticks are not
/// negative afterwards.
pub proof fn lemma_available_is_never_negative(account: AccountState, tx: TransactionInput)
    ensures
        account.available() >= 0,
        account.step(tx).available() >= 0,
{
}

/// A withdrawal of more than the available ticks changes nothing: not the
/// entries, and so neither balance.
pub proof fn lemma_overdrawn_withdrawal_is_dropped(
    account: AccountState,
    id: u32,
    client_id: u16,
    amount: i32,
)
    requires
        amount > account.available(),
    ensures
        account.step(TransactionInput::Withdrawal(id, client_id, amount)) == account,
{
}

/// A deposit or withdrawal under an id that is already taken changes nothing,
/// whatever the entry under that id is.
pub proof fn lemma_taken_id_is_dropped(account: AccountState, tx: TransactionInput)
    requires
        tx.kind() == TransactionType::Deposit || tx.kind() == TransactionType::Withdrawal,
        account.entries.contains_key(tx.id()),
    ensures
        account.step(tx) == account,
{
}

/// A dispute aimed at a withdrawal changes nothing, and an entry that becomes
/// `Disputed` was a `Normal` deposit named by a dispute.
pub proof fn lemma_only_normal_deposits_become_disputed(
    account: AccountState,
    tx: TransactionInput,
    id: u32,
)
    ensures
        tx.kind() == TransactionType::Dispute && account.entries.contains_key(tx.id())
            && account.entries[tx.id()].side == TransactionSide::Withdrawal ==> account.step(tx)
            == account,
        account.step(tx).has_status(id, TransactionStatus::Disputed) && !account.has_status(
            id,
            TransactionStatus::Disputed,
        ) ==> {
            &&& tx.kind() == TransactionType::Dispute
            &&& tx.id() == id
            &&& account.has_status(id, TransactionStatus::Normal)
            &&& account.entries[id].side == TransactionSide::Deposit
        },
{
}

/// A locked account is the same after any run of records: same entries, same
/// balances, still locked.
pub proof fn lemma_locked_account_is_frozen(account: AccountState, txs: Seq<TransactionInput>)
    requires
        account.locked,
    ensures
        account.replay(txs) == account,
    decreases txs.len(),
{
    if txs.len() > 0 {
        lemma_locked_account_is_frozen(account, txs.drop_last());
    }
}

/// Giving the same resolve or chargeback a second time changes nothing more.
pub proof fn lemma_closing_twice_is_closing_once(account: AccountState, tx: TransactionInput)
    requires
        tx.kind() == TransactionType::Resolve || tx.kind() == TransactionType::Chargeback,
    ensures
        account.step(tx).step(tx) == account.step(tx),
{
    let once = account.step(tx);
    assert(once.step(tx).entries =~= once.entries);
}

/// One record never removes an entry, never touches its id, client, side or
/// amount, and moves its status forward if at all; nor does it unlock the
/// account.
pub proof fn lemma_entries_only_move_forward(account: AccountState, tx: TransactionInput, id: u32)
    requires
        account.entries.contains_key(id),
    ensures
        account.step(tx).entries.contains_key(id),
        account.step(tx).entries[id] == account.entries[id].with_status(
            account.step(tx).entries[id].status,
        ),
        moves_forward(account.entries[id].status, account.step(tx).entries[id].status),
        account.locked ==> account.step(tx).locked,
        account.step(tx).id == account.id,
{
}

/// Records for this client keep every entry under its own id and with this
/// client's id.
pub proof fn lemma_step_keeps_well_formed(account: AccountState, tx: TransactionInput)
    requires
        account.well_formed(),
        tx.client_id() == account.id,
    ensures
        account.step(tx).well_formed(),
{
}

/// A new account that has only been given its own client's records is well
/// formed.
pub proof fn lemma_replay_is_well_formed(id: u16, txs: Seq<TransactionInput>)
    requires
        forall|i: int| 0 <= i < txs.len() ==> (#[trigger] txs[i]).client_id() == id,
    ensures
        AccountState::fresh(id).replay(txs).well_formed(),
        AccountState::fresh(id).replay(txs).id == id,
    decreases txs.len(),
{
    if txs.len() > 0 {
        lemma_replay_is_well_formed(id, txs.drop_last());
        lemma_step_keeps_well_formed(AccountState::fresh(id).replay(txs.drop_last()), txs.last());
    }
}

/// What a record that applies does to the two sums: a deposit adds its
/// amount to the available ticks and a withdrawal takes its amount off; a
/// dispute moves the deposit's amount from available to held, a resolve moves
/// it back, and a chargeback takes it out of held for good.
pub proof fn lemma_record_moves_funds(account: AccountState, tx: TransactionInput)
    requires
        account.applies(tx),
    ensures
        account.step(tx) != account,
        match tx {
            TransactionInput::Deposit(_, _, amount) => {
                &&& account.step(tx).sum(Fund::Available) == account.sum(Fund::Available) + amount
                &&& account.step(tx).sum(Fund::Held) == account.sum(Fund::Held)
            },
            TransactionInput::Withdrawal(_, _, amount) => {
                &&& account.step(tx).sum(Fund::Available) == account.sum(Fund::Available) - amount
                &&& account.step(tx).sum(Fund::Held) == account.sum(Fund::Held)
            },
            TransactionInput::Dispute(id, _) => {
                &&& account.step(tx).sum(Fund::Available) == account.sum(Fund::Available)
                    - account.entries[id].amount
                &&& account.step(tx).sum(Fund::Held) == account.sum(Fund::Held)
                    + account.entries[id].amount
            },
            TransactionInput::Resolve(id, _) => account.entries[id].side
                == TransactionSide::Deposit ==> {
                &&& account.step(tx).sum(Fund::Available) == account.sum(Fund::Available)
                    + account.entries[id].amount
                &&& account.step(tx).sum(Fund::Held) == account.sum(Fund::Held)
                    - account.entries[id].amount
            },
            TransactionInput::Chargeback(id, _) => account.entries[id].side
                == TransactionSide::Deposit ==> {
                &&& account.step(tx).sum(Fund::Available) == account.sum(Fund::Available)
                &&& account.step(tx).sum(Fund::Held) == account.sum(Fund::Held)
                    - account.entries[id].amount
                &&& account.step(tx).locked
            },
        },
{
    match tx {
        TransactionInput::Deposit(id, client_id, amount) => {
            let entry = Transaction::fresh(id, client_id, TransactionSide::Deposit, amount);
            lemma_filing_adds_a_share(account, entry, Fund::Available);
            lemma_filing_adds_a_share(account, entry, Fund::Held);
            assert(account.step(tx).entries.contains_key(id));
        },
        TransactionInput::Withdrawal(id, client_id, amount) => {
            let entry = Transaction::fresh(id, client_id, TransactionSide::Withdrawal, amount);
            lemma_filing_adds_a_share(account, entry, Fund::Available);
            lemma_filing_adds_a_share(account, entry, Fund::Held);
            assert(account.step(tx).entries.contains_key(id));
        },
        TransactionInput::Dispute(id, _) => {
            lemma_marking_swaps_a_share(account, id, TransactionStatus::Disputed, Fund::Available);
            lemma_marking_swaps_a_share(account, id, TransactionStatus::Disputed, Fund::Held);
            assert(account.step(tx).entries[id].status != account.entries[id].status);
        },
        TransactionInput::Resolve(id, _) => {
            let status = TransactionStatus::Solved(false);
            lemma_marking_swaps_a_share(account, id, status, Fund::Available);
            lemma_marking_swaps_a_share(account, id, status, Fund::Held);
            assert(account.step(tx).entries[id].status != account.entries[id].status);
        },
        TransactionInput::Chargeback(id, _) => {
            let status = TransactionStatus::Solved(true);
            lemma_marking_swaps_a_share(account, id, status, Fund::Available);
            lemma_marking_swaps_a_share(account, id, status, Fund::Held);
            assert(account.step(tx).entries == account.mark(id, status).entries);
        },
    }
}

/// A new account has nothing in either fund.
pub proof fn lemma_fresh_account_is_empty(id: u16, fund: Fund)
    ensures
        AccountState::fresh(id).sum(fund) == 0,
        AccountState::fresh(id).available() == 0,
        AccountState::fresh(id).held() == 0,
        AccountState::fresh(id).total() == 0,
{
    lemma_sum_of_nothing(Fund::Available, AccountState::fresh(id).entries, id_space());
    lemma_sum_of_nothing(Fund::Held, AccountState::fresh(id).entries, id_space());
    lemma_sum_of_nothing(fund, AccountState::fresh(id).entries, id_space());
}

/// Filing an entry under a free id adds the entry's share to each fund.
pub proof fn lemma_filing_adds_a_share(account: AccountState, entry: Transaction, fund: Fund)
    requires
        !account.entries.contains_key(entry.id),
    ensures
        account.file(entry).sum(fund) == account.sum(fund) + share(fund, entry),
{
    lemma_sum_one_id_differs(
        fund,
        account.entries,
        account.file(entry).entries,
        entry.id,
        id_space(),
    );
}

/// Moving an entry to another status takes its old share out of each fund and
/// puts its new share in.
pub proof fn lemma_marking_swaps_a_share(
    account: AccountState,
    id: u32,
    status: TransactionStatus,
    fund: Fund,
)
    requires
        account.entries.contains_key(id),
    ensures
        account.mark(id, status).sum(fund) == account.sum(fund) - share(fund, account.entries[id])
            + share(fund, account.entries[id].with_status(status)),
{
    lemma_sum_one_id_differs(
        fund,
        account.entries,
        account.mark(id, status).entries,
        id,
        id_space(),
    );
}

} // verus!
