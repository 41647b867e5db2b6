//! The one error type of the crate.

use std::num::{ParseFloatError, ParseIntError};
use vstd::prelude::*;
use vstd::std_specs::convert::FromSpecImpl;
use vstd::string::{to_string_from_display_ensures, StringExecFns};

verus! {

/// `std::io::Error`, carried through and never looked into.
#[verifier::external_type_specification]
#[verifier::external_body]
pub struct ExIoError(std::io::Error);

/// `csv::Error`, carried through and never looked into.
#[verifier::external_type_specification]
#[verifier::external_body]
pub struct ExCsvError(csv::Error);

/// `std::num::ParseIntError`, carried through and never looked into.
#[verifier::external_type_specification]
#[verifier::external_body]
pub struct ExParseIntError(std::num::ParseIntError);

/// `std::num::ParseFloatError`, carried through and never looked into.
#[verifier::external_type_specification]
#[verifier::external_body]
pub struct ExParseFloatError(std::num::ParseFloatError);

/// Everything that can stop a run.
#[derive(Debug)]
pub enum AppError {
    MissingArgument,
    FileNotFound(String),
    InvalidFormat(String),
    InvalidRecord(String),
    InvalidTxType(String),
    IoError(std::io::Error),
    CsvError(csv::Error),
    ParseInt(ParseIntError),
    ParseFloat(ParseFloatError),
}

impl AppError {
    /// What stands before the detail in the error's message.
    pub open spec fn heading(&self) -> Seq<char> {
        match self {
            AppError::MissingArgument =>
                "Usage: cargo run -- <input_file>\nError: missing input file argument"@,
            AppError::FileNotFound(_) => "File not found: "@,
            AppError::InvalidFormat(_) => "Invalid file format: "@,
            AppError::InvalidRecord(_) => "Invalid record for creating transaction: "@,
            AppError::InvalidTxType(_) => "Invalid transaction type "@,
            AppError::IoError(_) => "I/O error: "@,
            AppError::CsvError(_) => "CSV error: "@,
            AppError::ParseInt(_) => "Parse int error "@,
            AppError::ParseFloat(_) => "Parse float error "@,
        }
    }

    /// Whether `detail` can stand behind the heading: for the errors that
    /// carry a text it is that text, for the others it is what the error
    /// below says of itself.
    pub open spec fn has_detail(&self, detail: String) -> bool {
        match self {
            AppError::MissingArgument => detail@ == Seq::<char>::empty(),
            AppError::FileNotFound(path) => detail@ == path@,
            AppError::InvalidFormat(reason) => detail@ == reason@,
            AppError::InvalidRecord(record) => detail@ == record@,
            AppError::InvalidTxType(word) => detail@ == word@,
            AppError::IoError(err) => to_string_from_display_ensures(err, detail),
            AppError::CsvError(err) => to_string_from_display_ensures(err, detail),
            AppError::ParseInt(err) => to_string_from_display_ensures(err, detail),
            AppError::ParseFloat(err) => to_string_from_display_ensures(err, detail),
        }
    }

    /// The error in words: its heading, then its detail.
    pub fn message(&self) -> (text: String)
        ensures
            exists|detail: String| #[trigger]
                self.has_detail(detail) && text@ == self.heading() + detail@,
    {
        let detail = match self {
            AppError::MissingArgument => String::new(),
            AppError::FileNotFound(path) => path.clone(),
            AppError::InvalidFormat(reason) => reason.clone(),
            AppError::InvalidRecord(record) => record.clone(),
            AppError::InvalidTxType(word) => word.clone(),
            AppError::IoError(err) => err.to_string(),
            AppError::CsvError(err) => err.to_string(),
            AppError::ParseInt(err) => err.to_string(),
            AppError::ParseFloat(err) => err.to_string(),
        };
        let heading = match self {
            AppError::MissingArgument =>
                "Usage: cargo run -- <input_file>\nError: missing input file argument",
            AppError::FileNotFound(_) => "File not found: ",
            AppError::InvalidFormat(_) => "Invalid file format: ",
            AppError::InvalidRecord(_) => "Invalid record for creating transaction: ",
            AppError::InvalidTxType(_) => "Invalid transaction type ",
            AppError::IoError(_) => "I/O error: ",
            AppError::CsvError(_) => "CSV error: ",
            AppError::ParseInt(_) => "Parse int error ",
            AppError::ParseFloat(_) => "Parse float error ",
        };
        let mut text = String::from_str(heading);
        text.append(detail.as_str());
        assert(self.has_detail(detail));
        text
    }
}

impl From<csv::Error> for AppError {
    fn from(value: csv::Error) -> (error: Self) {
        AppError::CsvError(value)
    }
}

impl FromSpecImpl<csv::Error> for AppError {
    open spec fn obeys_from_spec() -> bool {
        true
    }

    open spec fn from_spec(value: csv::Error) -> Self {
        AppError::CsvError(value)
    }
}

impl From<std::io::Error> for AppError {
    fn from(value: std::io::Error) -> (error: Self) {
        AppError::IoError(value)
    }
}

impl FromSpecImpl<std::io::Error> for AppError {
    open spec fn obeys_from_spec() -> bool {
        true
    }

    open spec fn from_spec(value: std::io::Error) -> Self {
        AppError::IoError(value)
    }
}

impl From<ParseIntError> for AppError {
    fn from(err: ParseIntError) -> (error: Self) {
        AppError::ParseInt(err)
    }
}

impl FromSpecImpl<ParseIntError> for AppError {
    open spec fn obeys_from_spec() -> bool {
        true
    }

    open spec fn from_spec(err: ParseIntError) -> Self {
        AppError::ParseInt(err)
    }
}

impl From<ParseFloatError> for AppError {
    fn from(err: ParseFloatError) -> (error: Self) {
        AppError::ParseFloat(err)
    }
}

impl FromSpecImpl<ParseFloatError> for AppError {
    open spec fn obeys_from_spec() -> bool {
        true
    }

    open spec fn from_spec(err: ParseFloatError) -> Self {
        AppError::ParseFloat(err)
    }
}

} // verus!
