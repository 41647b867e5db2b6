use payments_engine::{TransactionInput, User};

fn account_after(records: Vec<TransactionInput>) -> User {
    let mut user = User::new(1);
    for record in records {
        assert!(user.process_tx_input(record).is_ok());
    }
    user
}

#[test]
fn two_deposits_add_up() {
    let user = account_after(vec![
        TransactionInput::Deposit(1, 1, 10_000),
        TransactionInput::Deposit(2, 1, 20_000),
    ]);
    assert_eq!(user.available(), 30_000);
    assert_eq!(user.held(), 0);
    assert_eq!(user.total(), 30_000);
    assert!(!user.locked);
    assert_eq!(user.to_csv_row(), "1,3.0000,0.0000,3.0000,false");
}

#[test]
fn withdrawal_within_funds_is_taken_off() {
    let user = account_after(vec![
        TransactionInput::Deposit(1, 1, 50_000),
        TransactionInput::Withdrawal(2, 1, 30_000),
    ]);
    assert_eq!(user.available(), 20_000);
    assert_eq!(user.held(), 0);
    assert_eq!(user.total(), 20_000);
    assert_eq!(user.transactions.len(), 2);
}

#[test]
fn withdrawal_beyond_funds_is_ignored() {
    let user = account_after(vec![
        TransactionInput::Deposit(1, 1, 50_000),
        TransactionInput::Withdrawal(2, 1, 90_000),
    ]);
    assert_eq!(user.available(), 50_000);
    assert_eq!(user.total(), 50_000);
    assert_eq!(user.transactions.len(), 1);
    assert!(!user.transactions.contains_key(&2));
}

#[test]
fn dispute_holds_the_deposit() {
    let user = account_after(vec![
        TransactionInput::Deposit(1, 1, 50_000),
        TransactionInput::Dispute(1, 1),
    ]);
    assert_eq!(user.available(), 0);
    assert_eq!(user.held(), 50_000);
    assert_eq!(user.total(), 50_000);
    assert!(!user.locked);
}

#[test]
fn chargeback_removes_the_funds_and_locks() {
    let mut user = account_after(vec![
        TransactionInput::Deposit(1, 1, 50_000),
        TransactionInput::Dispute(1, 1),
        TransactionInput::Chargeback(1, 1),
    ]);
    assert_eq!(user.available(), 0);
    assert_eq!(user.held(), 0);
    assert_eq!(user.total(), 0);
    assert!(user.locked);
    assert!(user.process_tx_input(TransactionInput::Deposit(3, 1, 100_000)).is_ok());
    assert_eq!(user.available(), 0);
    assert_eq!(user.held(), 0);
    assert_eq!(user.total(), 0);
    assert!(user.locked);
    assert_eq!(user.transactions.len(), 1);
}

#[test]
fn resolve_releases_the_funds() {
    let user = account_after(vec![
        TransactionInput::Deposit(1, 1, 50_000),
        TransactionInput::Dispute(1, 1),
        TransactionInput::Resolve(1, 1),
    ]);
    assert_eq!(user.available(), 50_000);
    assert_eq!(user.held(), 0);
    assert_eq!(user.total(), 50_000);
    assert!(!user.locked);
}
