use payments_engine::AppError;
use std::io;

#[test]
fn messages_of_the_plain_errors() {
    assert_eq!(
        AppError::MissingArgument.message(),
        "Usage: cargo run -- <input_file>\nError: missing input file argument"
    );
    assert_eq!(AppError::FileNotFound("in.csv".to_string()).message(), "File not found: in.csv");
    assert_eq!(
        AppError::InvalidFormat("Line 3: bad".to_string()).message(),
        "Invalid file format: Line 3: bad"
    );
    assert_eq!(
        AppError::InvalidRecord("deposit,1,2,".to_string()).message(),
        "Invalid record for creating transaction: deposit,1,2,"
    );
    assert_eq!(
        AppError::InvalidTxType("transfer".to_string()).message(),
        "Invalid transaction type transfer"
    );
}

#[test]
fn messages_of_the_wrapped_errors() {
    let parse_int = "x".parse::<u16>().unwrap_err();
    assert_eq!(
        AppError::from(parse_int.clone()).message(),
        format!("Parse int error {}", parse_int)
    );
    let parse_float = "x".parse::<f32>().unwrap_err();
    assert_eq!(
        AppError::from(parse_float.clone()).message(),
        format!("Parse float error {}", parse_float)
    );
    let message = AppError::from(io::Error::new(io::ErrorKind::Other, "disk on fire")).message();
    assert_eq!(message, "I/O error: disk on fire");
    let csv_error = csv::Error::from(io::Error::new(io::ErrorKind::Other, "torn"));
    let expected = format!("CSV error: {}", csv_error);
    assert_eq!(AppError::from(csv_error).message(), expected);
}

#[test]
fn wrapped_errors_keep_their_variant() {
    assert!(matches!(AppError::from("x".parse::<u32>().unwrap_err()), AppError::ParseInt(_)));
    assert!(matches!(AppError::from("x".parse::<f32>().unwrap_err()), AppError::ParseFloat(_)));
    assert!(matches!(
        AppError::from(io::Error::new(io::ErrorKind::NotFound, "gone")),
        AppError::IoError(_)
    ));
    assert!(matches!(
        AppError::from(csv::Error::from(io::Error::new(io::ErrorKind::Other, "torn"))),
        AppError::CsvError(_)
    ));
}
