//! A ledger that replays deposits, withdrawals and disputes into client accounts.
//!
//! Amounts are whole numbers of ticks, one tick being a ten-thousandth of the
//! currency unit. An account keeps every transaction it admitted; its balances
//! are sums over those entries and are never stored.

pub mod account;
pub mod error;
pub mod laws;
pub mod record;
pub mod registry;
pub mod report;
pub mod text;
pub mod transaction;

pub use account::{AccountState, Fund, User};
pub use error::AppError;
pub use record::{is_header_line, sanitize_field, sanitize_record};
pub use registry::{process_record, report};
pub use report::format_ticks;
pub use transaction::{
    Transaction, TransactionInput, TransactionSide, TransactionStatus, TransactionType,
};
