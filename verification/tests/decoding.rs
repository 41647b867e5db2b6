use csv::StringRecord;
use payments_engine::{
    is_header_line, sanitize_field, sanitize_record, AppError, TransactionInput, TransactionType,
};

fn record(fields: [&str; 4]) -> StringRecord {
    StringRecord::from(fields.to_vec())
}

fn no_amount() -> Result<i32, AppError> {
    Err(AppError::InvalidFormat("no amount".to_string()))
}

#[test]
fn kinds_by_name() {
    assert!(matches!(TransactionType::from_str("deposit"), Ok(TransactionType::Deposit)));
    assert!(matches!(TransactionType::from_str("withdrawal"), Ok(TransactionType::Withdrawal)));
    assert!(matches!(TransactionType::from_str("dispute"), Ok(TransactionType::Dispute)));
    assert!(matches!(TransactionType::from_str("resolve"), Ok(TransactionType::Resolve)));
    assert!(matches!(TransactionType::from_str("chargeback"), Ok(TransactionType::Chargeback)));
}

#[test]
fn unknown_kind_is_quoted() {
    for word in ["", "Deposit", " deposit", "deposits", "transfer"] {
        match TransactionType::from_str(word) {
            Err(AppError::InvalidTxType(quoted)) => assert_eq!(quoted, word),
            other => panic!("{:?}", other),
        }
    }
}

#[test]
fn kinds_through_parse() {
    assert_eq!("resolve".parse::<TransactionType>().unwrap(), TransactionType::Resolve);
    assert!(matches!("RESOLVE".parse::<TransactionType>(), Err(AppError::InvalidTxType(_))));
}

#[test]
fn fields_are_trimmed_and_lowercased() {
    assert_eq!(sanitize_field("  DePosit\t"), "deposit");
    assert_eq!(sanitize_field("deposit"), "deposit");
    assert_eq!(sanitize_field(" 1 2 "), "1 2");
    assert_eq!(sanitize_field(""), "");
    let clean = sanitize_record(&StringRecord::from(vec![" A", "b ", "", " C d "]));
    assert_eq!(clean, vec!["a", "b", "", "c d"]);
    assert!(sanitize_record(&StringRecord::new()).is_empty());
}

#[test]
fn deposit_and_withdrawal_take_the_amount() {
    let decoded = TransactionInput::try_from_string_record(
        record(["deposit", "1", "2", "1.5"]),
        Ok(15_000),
    );
    assert_eq!(decoded.unwrap(), TransactionInput::Deposit(2, 1, 15_000));
    let decoded = TransactionInput::try_from_string_record(
        record([" Withdrawal", " 65535 ", "+4294967295", " 0.0001 "]),
        Ok(1),
    );
    assert_eq!(decoded.unwrap(), TransactionInput::Withdrawal(4_294_967_295, 65_535, 1));
}

#[test]
fn dispute_family_takes_no_amount() {
    for (name, expected) in [
        ("dispute", TransactionInput::Dispute(20, 10)),
        ("RESOLVE", TransactionInput::Resolve(20, 10)),
        (" chargeback ", TransactionInput::Chargeback(20, 10)),
    ] {
        let decoded =
            TransactionInput::try_from_string_record(record([name, "10", "020", ""]), no_amount());
        assert_eq!(decoded.unwrap(), expected);
        let decoded =
            TransactionInput::try_from_string_record(record([name, "10", "20", "7"]), Ok(70_000));
        assert_eq!(decoded.unwrap(), expected);
    }
}

#[test]
fn empty_amount_is_an_invalid_record() {
    for name in ["deposit", "withdrawal"] {
        let decoded = TransactionInput::try_from_string_record(
            record([name, " 1", "X ", ""]),
            no_amount(),
        );
        match decoded {
            Err(AppError::InvalidRecord(quoted)) => assert_eq!(quoted, format!("{},1,x,", name)),
            other => panic!("{:?}", other),
        }
    }
}

#[test]
fn bad_client_or_transaction_is_a_parse_error() {
    for fields in [
        ["deposit", "x", "2", "1"],
        ["deposit", "", "2", "1"],
        ["deposit", "-1", "2", "1"],
        ["deposit", "65536", "2", "1"],
        ["deposit", "1 1", "2", "1"],
        ["deposit", "1", "4294967296", "1"],
        ["deposit", "1", "2.0", "1"],
        ["resolve", "1", "+", ""],
        ["dispute", "0x1", "2", ""],
    ] {
        let decoded = TransactionInput::try_from_string_record(record(fields), Ok(10_000));
        assert!(matches!(decoded, Err(AppError::ParseInt(_))), "{:?}", fields);
    }
    // The client is read before the amount is looked at.
    let decoded =
        TransactionInput::try_from_string_record(record(["deposit", "x", "2", "y"]), no_amount());
    assert!(matches!(decoded, Err(AppError::ParseInt(_))));
}

#[test]
fn unusable_amount_hands_back_its_reason() {
    let reason = "abc".parse::<f32>().unwrap_err();
    let decoded = TransactionInput::try_from_string_record(
        record(["deposit", "1", "2", "abc"]),
        Err(AppError::from(reason.clone())),
    );
    match decoded {
        Err(AppError::ParseFloat(handed_back)) => assert_eq!(handed_back, reason),
        other => panic!("{:?}", other),
    }
    let decoded = TransactionInput::try_from_string_record(
        record(["withdrawal", "1", "2", "inf"]),
        Err(AppError::InvalidRecord("inf is not finite".to_string())),
    );
    match decoded {
        Err(AppError::InvalidRecord(text)) => assert_eq!(text, "inf is not finite"),
        other => panic!("{:?}", other),
    }
}

#[test]
fn shape_is_checked_first() {
    let short = StringRecord::from(vec!["deposit", "1", "2"]);
    assert!(TransactionInput::decode_record(short, Ok(1)).is_none());
    assert!(TransactionInput::decode_record(StringRecord::new(), Ok(1)).is_none());
    assert!(TransactionInput::decode_record(record(["transfer", "1", "2", "3"]), Ok(1)).is_none());
    assert!(TransactionInput::decode_record(record(["", "1", "2", "3"]), Ok(1)).is_none());
    let decoded = TransactionInput::decode_record(record(["Deposit ", "1", "2", "3"]), Ok(30_000));
    assert_eq!(decoded.unwrap().unwrap(), TransactionInput::Deposit(2, 1, 30_000));
    let long = StringRecord::from(vec!["dispute", "1", "2", "", "extra"]);
    assert_eq!(
        TransactionInput::decode_record(long, no_amount()).unwrap().unwrap(),
        TransactionInput::Dispute(2, 1)
    );
    let decoded = TransactionInput::decode_record(record(["deposit", "1", "2", ""]), no_amount());
    assert!(matches!(decoded, Some(Err(AppError::InvalidRecord(_)))));
}

#[test]
fn header_is_told_from_a_record() {
    assert!(is_header_line("type,client,tx,amount"));
    assert!(is_header_line("type, client, tx, amount\n"));
    assert!(is_header_line("  TYPE,Client , t x,AMOUNT \r\n"));
    assert!(!is_header_line("deposit,1,1,1.0"));
    assert!(!is_header_line("type,client,tx"));
    assert!(!is_header_line("type,client,tx,amount,"));
    assert!(!is_header_line("type;client;tx;amount"));
    assert!(!is_header_line(""));
}
