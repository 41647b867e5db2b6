use payments_engine::{format_ticks, process_record, report, TransactionInput, User};
use std::collections::HashMap;

#[test]
fn ticks_in_units() {
    assert_eq!(format_ticks(0), "0.0000");
    assert_eq!(format_ticks(1), "0.0001");
    assert_eq!(format_ticks(15_000), "1.5000");
    assert_eq!(format_ticks(10_000), "1.0000");
    assert_eq!(format_ticks(9_999), "0.9999");
    assert_eq!(format_ticks(123_456_789), "12345.6789");
    assert_eq!(format_ticks(1_002_030), "100.2030");
    assert_eq!(format_ticks(-5), "-0.0005");
    assert_eq!(format_ticks(-10_000), "-1.0000");
    assert_eq!(format_ticks(-2_147_483_648), "-214748.3648");
}

#[test]
fn ticks_at_the_limits() {
    assert_eq!(format_ticks(i128::MAX), "17014118346046923173168730371588410.5727");
    assert_eq!(format_ticks(i128::MIN), "-17014118346046923173168730371588410.5728");
}

#[test]
fn header_names_the_columns() {
    assert_eq!(User::csv_header(), "client,available,held,total,locked");
}

#[test]
fn row_of_a_new_account() {
    assert_eq!(User::new(0).to_csv_row(), "0,0.0000,0.0000,0.0000,false");
    assert_eq!(User::new(65_535).to_csv_row(), "65535,0.0000,0.0000,0.0000,false");
}

#[test]
fn row_with_held_funds_and_lock() {
    let mut user = User::new(42);
    for record in [
        TransactionInput::Deposit(1, 42, 15_000),
        TransactionInput::Deposit(2, 42, 20_001),
        TransactionInput::Dispute(2, 42),
    ] {
        assert!(user.process_tx_input(record).is_ok());
    }
    assert_eq!(user.to_csv_row(), "42,1.5000,2.0001,3.5001,false");
    assert!(user.process_tx_input(TransactionInput::Chargeback(2, 42)).is_ok());
    assert_eq!(user.to_csv_row(), "42,1.5000,0.0000,1.5000,true");
}

#[test]
fn row_with_negative_held() {
    let mut user = User::new(1);
    for record in [TransactionInput::Deposit(1, 1, -25), TransactionInput::Dispute(1, 1)] {
        assert!(user.process_tx_input(record).is_ok());
    }
    assert_eq!(user.to_csv_row(), "1,0.0000,-0.0025,-0.0025,false");
}

#[test]
fn records_go_to_their_client() {
    let mut accounts: HashMap<u16, User> = HashMap::new();
    for record in [
        TransactionInput::Deposit(1, 1, 10_000),
        TransactionInput::Deposit(2, 2, 20_000),
        TransactionInput::Deposit(3, 1, 20_000),
        TransactionInput::Withdrawal(4, 1, 15_000),
        TransactionInput::Withdrawal(5, 2, 30_000),
        TransactionInput::Dispute(9, 3),
    ] {
        assert!(process_record(&mut accounts, record).is_ok());
    }
    assert_eq!(accounts.len(), 3);
    assert_eq!(accounts[&1].id, 1);
    assert_eq!(accounts[&1].available(), 15_000);
    assert_eq!(accounts[&1].transactions.len(), 3);
    assert_eq!(accounts[&2].available(), 20_000);
    assert_eq!(accounts[&2].transactions.len(), 1);
    // A dispute opens the account of a client never seen before, and does no more.
    assert_eq!(accounts[&3].id, 3);
    assert!(accounts[&3].transactions.is_empty());
}

#[test]
fn report_has_header_and_every_account_once() {
    let mut accounts: HashMap<u16, User> = HashMap::new();
    assert_eq!(report(&accounts), vec!["client,available,held,total,locked".to_string()]);
    for record in [
        TransactionInput::Deposit(1, 1, 10_000),
        TransactionInput::Deposit(2, 2, 20_000),
        TransactionInput::Deposit(3, 1, 20_000),
        TransactionInput::Withdrawal(4, 1, 15_000),
        TransactionInput::Dispute(2, 2),
        TransactionInput::Chargeback(2, 2),
    ] {
        assert!(process_record(&mut accounts, record).is_ok());
    }
    let lines = report(&accounts);
    assert_eq!(lines.len(), 3);
    assert_eq!(lines[0], "client,available,held,total,locked");
    let mut rows = lines[1..].to_vec();
    rows.sort();
    assert_eq!(rows, vec!["1,1.5000,0.0000,1.5000,false", "2,0.0000,0.0000,0.0000,true"]);
}
