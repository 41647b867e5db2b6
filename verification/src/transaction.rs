//! Transaction records as they arrive, and the entries an account files them under.

use crate::error::AppError;
use crate::text::same_text;
use vstd::prelude::*;

verus! {

/// The five kinds of record.
#[derive(Debug, Clone, Copy, PartialEq, Eq, Structural)]
pub enum TransactionType {
    Deposit,
    Withdrawal,
    Dispute,
    Resolve,
    Chargeback,
}

impl TransactionType {
    /// The kind that a word names, if it names one. The five names are
    /// written in small letters.
    pub open spec fn named(word: Seq<char>) -> Option<TransactionType> {
        if word == "deposit"@ {
            Some(TransactionType::Deposit)
        } else if word == "withdrawal"@ {
            Some(TransactionType::Withdrawal)
        } else if word == "dispute"@ {
            Some(TransactionType::Dispute)
        } else if word == "resolve"@ {
            Some(TransactionType::Resolve)
        } else if word == "chargeback"@ {
            Some(TransactionType::Chargeback)
        } else {
            None
        }
    }

    /// Whether `outcome` is the right answer to the word `word`: the kind
    /// that the word names, or `InvalidTxType` quoting the word where it names
    /// none.
    pub open spec fn read_as(word: Seq<char>, outcome: Result<TransactionType, AppError>) -> bool {
        match outcome {
            Ok(kind) => Self::named(word) == Some(kind),
            Err(AppError::InvalidTxType(quoted)) => Self::named(word) is None && quoted@ == word,
            Err(_) => false,
        }
    }

    /// The kind that `s` names, or `InvalidTxType` with the word that names
    /// none.
    pub fn from_str(s: &str) -> (kind: Result<Self, AppError>)
        ensures
            Self::read_as(s@, kind),
    {
        if same_text(s, "deposit") {
            Ok(Self::Deposit)
        } else if same_text(s, "withdrawal") {
            Ok(Self::Withdrawal)
        } else if same_text(s, "dispute") {
            Ok(Self::Dispute)
        } else if same_text(s, "resolve") {
            Ok(Self::Resolve)
        } else if same_text(s, "chargeback") {
            Ok(Self::Chargeback)
        } else {
            Err(AppError::InvalidTxType(s.to_string()))
        }
    }
}

impl std::str::FromStr for TransactionType {
    type Err = AppError;

    /// The kind that `s` names, or `InvalidTxType` with the word that names
    /// none.
    fn from_str(s: &str) -> (kind: Result<Self, Self::Err>)
        ensures
            TransactionType::read_as(s@, kind),
    {
        TransactionType::from_str(s)
    }
}

/// Where an entry stands in its life: `Normal`, then `Disputed`, then `Solved`.
#[derive(Debug, Clone, Copy, PartialEq, Eq, Structural)]
pub enum TransactionStatus {
    Normal,
    Disputed,
    /// Closed for good; `true` when the dispute ended in a chargeback.
    Solved(bool),
}

/// Whether an entry brought money in or took it out.
#[derive(Debug, Clone, Copy, PartialEq, Eq, Structural)]
pub enum TransactionSide {
    Deposit,
    Withdrawal,
}

/// One decoded record: transaction id, client id and, where money moves, the
/// amount in ticks.
#[derive(Debug, Clone, Copy, PartialEq, Eq, Structural)]
pub enum TransactionInput {
    Deposit(u32, u16, i32),
    Withdrawal(u32, u16, i32),
    Dispute(u32, u16),
    Resolve(u32, u16),
    Chargeback(u32, u16),
}

impl TransactionInput {
    /// The transaction id the record carries or refers to.
    pub open spec fn spec_id(&self) -> u32 {
        match *self {
            TransactionInput::Deposit(id, _, _) => id,
            TransactionInput::Withdrawal(id, _, _) => id,
            TransactionInput::Dispute(id, _) => id,
            TransactionInput::Resolve(id, _) => id,
            TransactionInput::Chargeback(id, _) => id,
        }
    }

    /// The client the record names.
    pub open spec fn spec_client_id(&self) -> u16 {
        match *self {
            TransactionInput::Deposit(_, client_id, _) => client_id,
            TransactionInput::Withdrawal(_, client_id, _) => client_id,
            TransactionInput::Dispute(_, client_id) => client_id,
            TransactionInput::Resolve(_, client_id) => client_id,
            TransactionInput::Chargeback(_, client_id) => client_id,
        }
    }

    /// The kind of the record.
    pub open spec fn kind(&self) -> TransactionType {
        match *self {
            TransactionInput::Deposit(_, _, _) => TransactionType::Deposit,
            TransactionInput::Withdrawal(_, _, _) => TransactionType::Withdrawal,
            TransactionInput::Dispute(_, _) => TransactionType::Dispute,
            TransactionInput::Resolve(_, _) => TransactionType::Resolve,
            TransactionInput::Chargeback(_, _) => TransactionType::Chargeback,
        }
    }

    #[verifier::when_used_as_spec(spec_id)]
    pub fn id(&self) -> (id: u32)
        ensures
            id == self.spec_id(),
    {
        match self {
            TransactionInput::Deposit(id, _, _) | TransactionInput::Withdrawal(id, _, _) => *id,
            TransactionInput::Dispute(id, _)
            | TransactionInput::Resolve(id, _)
            | TransactionInput::Chargeback(id, _) => *id,
        }
    }

    #[verifier::when_used_as_spec(spec_client_id)]
    pub fn client_id(&self) -> (client_id: u16)
        ensures
            client_id == self.spec_client_id(),
    {
        match self {
            TransactionInput::Deposit(_, client_id, _)
            | TransactionInput::Withdrawal(_, client_id, _) => *client_id,
            TransactionInput::Dispute(_, client_id)
            | TransactionInput::Resolve(_, client_id)
            | TransactionInput::Chargeback(_, client_id) => *client_id,
        }
    }
}

/// An entry of an account's history. Only `status` ever changes.
#[derive(Debug, Clone, Copy, PartialEq, Eq, Structural)]
pub struct Transaction {
    pub id: u32,
    pub client_id: u16,
    pub status: TransactionStatus,
    pub side: TransactionSide,
    /// In ticks.
    pub amount: i32,
}

impl Transaction {
    /// The entry as it is first filed: `Normal`.
    pub open spec fn fresh(id: u32, client_id: u16, side: TransactionSide, amount: i32) -> Self {
        Transaction { id, client_id, status: TransactionStatus::Normal, side, amount }
    }

    /// The same entry under another status.
    pub open spec fn with_status(self, status: TransactionStatus) -> Self {
        Transaction { status, ..self }
    }

    pub fn new(id: u32, client_id: u16, side: TransactionSide, amount: i32) -> (entry: Self)
        ensures
            entry == Self::fresh(id, client_id, side, amount),
    {
        Self { id, client_id, side, status: TransactionStatus::Normal, amount }
    }
}

} // verus!
