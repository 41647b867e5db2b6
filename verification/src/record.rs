//! From a line of input to a transaction record.

use crate::error::AppError;
use crate::text::{
    join_with_commas, joined, lowercased, parse_u16, parse_u32, replace_char, replaced,
    same_ignoring_ascii_case, texts, trimmed, unsigned_upto,
};
use crate::transaction::{TransactionInput, TransactionType};
use csv::StringRecord;
use vstd::prelude::*;

verus! {

/// `csv::StringRecord`: one line of input, cut into fields.
#[verifier::external_type_specification]
#[verifier::external_body]
pub struct ExStringRecord(csv::StringRecord);

/// The fields a record holds, first to last.
pub uninterp spec fn record_fields(record: StringRecord) -> Seq<Seq<char>>;

/// `StringRecord::len`. Believed: it counts the fields.
pub assume_specification[ StringRecord::len ](record: &StringRecord) -> (len: usize)
    ensures
        len == record_fields(*record).len(),
;

/// `StringRecord::get`. Believed: it hands out field `i` where the record has
/// one, and nothing where it has not.
pub assume_specification<'a>[ StringRecord::get ](record: &'a StringRecord, i: usize) -> (field:
    Option<&'a str>)
    ensures
        match field {
            Some(text) => i < record_fields(*record).len() && text@ == record_fields(
                *record,
            )[i as int],
            None => i >= record_fields(*record).len(),
        },
;

/// A field as the decoder reads it: trimmed, then in lowercase.
pub open spec fn sanitized(field: Seq<char>) -> Seq<char> {
    lowercased(trimmed(field))
}

/// Every field of a record as the decoder reads it.
pub open spec fn sanitized_fields(fields: Seq<Seq<char>>) -> Seq<Seq<char>> {
    fields.map_values(|field: Seq<char>| sanitized(field))
}

/// Whether a record has the shape the decoder works on: at least four fields,
/// the first of which names a kind of transaction.
pub open spec fn decodable(fields: Seq<Seq<char>>) -> bool {
    fields.len() >= 4 && TransactionType::named(sanitized(fields[0])) is Some
}

/// Why a record of the right shape yields no transaction.
pub enum Reject {
    /// A deposit or withdrawal whose amount field is empty.
    MissingAmount,
    /// The client field is no number from 0 to 65535.
    Client,
    /// The transaction field is no number from 0 to 4294967295.
    Transaction,
    /// A deposit or withdrawal whose amount field holds no usable amount.
    Amount,
}

/// What a record of the right shape decodes to. `amount` is what its fourth
/// field comes to in ticks, if it comes to anything.
///
/// An empty amount on a deposit or withdrawal is found first, then a bad
/// client, then a bad transaction id, and last an unusable amount. Disputes,
/// resolves and chargebacks take no amount, whatever the fourth field holds.
pub open spec fn decode(fields: Seq<Seq<char>>, amount: Option<i32>) -> Result<
    TransactionInput,
    Reject,
>
    recommends
        decodable(fields),
{
    let kind = TransactionType::named(sanitized(fields[0]))->0;
    let moves_money = kind == TransactionType::Deposit || kind == TransactionType::Withdrawal;
    let client = unsigned_upto(sanitized(fields[1]), 0xffff);
    let id = unsigned_upto(sanitized(fields[2]), 0xffff_ffff);
    if moves_money && fields[3].len() == 0 {
        Err(Reject::MissingAmount)
    } else if client is None {
        Err(Reject::Client)
    } else if id is None {
        Err(Reject::Transaction)
    } else if moves_money && amount is None {
        Err(Reject::Amount)
    } else {
        let client = client->0 as u16;
        let id = id->0 as u32;
        Ok(
            match kind {
                TransactionType::Deposit => TransactionInput::Deposit(id, client, amount->0),
                TransactionType::Withdrawal => TransactionInput::Withdrawal(id, client, amount->0),
                TransactionType::Dispute => TransactionInput::Dispute(id, client),
                TransactionType::Resolve => TransactionInput::Resolve(id, client),
                TransactionType::Chargeback => TransactionInput::Chargeback(id, client),
            },
        )
    }
}

/// The amount a caller hands in, without the reason where there is none.
pub open spec fn amount_if_any(amount: Result<i32, AppError>) -> Option<i32> {
    match amount {
        Ok(ticks) => Some(ticks),
        Err(_) => None,
    }
}

/// Whether `decoded` is the right answer for a record of the right shape.
///
/// A transaction is handed out as `decode` gives it. A missing amount is an
/// `InvalidRecord` that quotes the fields as read, with commas between; a bad
/// client or transaction id is a `ParseInt`; an unusable amount is the
/// caller's own reason, handed back.
pub open spec fn decoded_as(
    fields: Seq<Seq<char>>,
    amount: Result<i32, AppError>,
    decoded: Result<TransactionInput, AppError>,
) -> bool {
    match decode(fields, amount_if_any(amount)) {
        Ok(tx) => decoded == Ok::<TransactionInput, AppError>(tx),
        Err(Reject::MissingAmount) => decoded matches Err(AppError::InvalidRecord(quote))
            && quote@ == joined(sanitized_fields(fields)),
        Err(Reject::Client) => decoded matches Err(AppError::ParseInt(_)),
        Err(Reject::Transaction) => decoded matches Err(AppError::ParseInt(_)),
        Err(Reject::Amount) => amount matches Err(reason) && decoded == Err::<
            TransactionInput,
            AppError,
        >(reason),
    }
}

/// Reads a field as the decoder does: trimmed, then in lowercase.
pub fn sanitize_field(field: &str) -> (clean: String)
    ensures
        clean@ == sanitized(field@),
{
    field.trim().to_lowercase()
}

/// Reads every field of a record as the decoder does.
pub fn sanitize_record(record: &StringRecord) -> (clean: Vec<String>)
    ensures
        clean@.len() == record_fields(*record).len(),
        forall|i: int|
            0 <= i < clean@.len() ==> (#[trigger] clean@[i])@ == sanitized(
                record_fields(*record)[i],
            ),
        texts(clean@) == sanitized_fields(record_fields(*record)),
{
    let mut clean: Vec<String> = Vec::new();
    let n = record.len();
    let mut i: usize = 0;
    while i < n
        invariant
            n == record_fields(*record).len(),
            i <= n,
            clean@.len() == i,
            forall|j: int|
                0 <= j < i ==> (#[trigger] clean@[j])@ == sanitized(record_fields(*record)[j]),
        decreases n - i,
    {
        clean.push(sanitize_field(record.get(i).unwrap()));
        i = i + 1;
    }
    assert(texts(clean@) =~= sanitized_fields(record_fields(*record)));
    clean
}

impl TransactionInput {
    /// Decodes a record of the shape `type, client, tx, amount`.
    ///
    /// `amount` is what the fourth field, read as the decoder reads fields,
    /// comes to in ticks, or the reason why it comes to nothing. It is only
    /// looked at for a deposit or withdrawal.
    pub fn try_from_string_record(value: StringRecord, amount: Result<i32, AppError>) -> (decoded:
        Result<Self, AppError>)
        requires
            decodable(record_fields(value)),
        ensures
            decoded_as(record_fields(value), amount, decoded),
    {
        let is_non_numeric_tx = value.get(3).unwrap().is_empty();
        let fields = sanitize_record(&value);
        let tx_type = TransactionType::from_str(fields[0].as_str()).unwrap();
        if is_non_numeric_tx && (tx_type == TransactionType::Deposit || tx_type
            == TransactionType::Withdrawal) {
            return Err(AppError::InvalidRecord(join_with_commas(&fields)));
        }
        let client_id = match parse_u16(fields[1].as_str()) {
            Ok(client_id) => client_id,
            Err(err) => {
                return Err(AppError::from(err));
            },
        };
        let id = match parse_u32(fields[2].as_str()) {
            Ok(id) => id,
            Err(err) => {
                return Err(AppError::from(err));
            },
        };
        match tx_type {
            TransactionType::Deposit => match amount {
                Ok(ticks) => Ok(Self::Deposit(id, client_id, ticks)),
                Err(reason) => Err(reason),
            },
            TransactionType::Withdrawal => match amount {
                Ok(ticks) => Ok(Self::Withdrawal(id, client_id, ticks)),
                Err(reason) => Err(reason),
            },
            TransactionType::Dispute => Ok(Self::Dispute(id, client_id)),
            TransactionType::Resolve => Ok(Self::Resolve(id, client_id)),
            TransactionType::Chargeback => Ok(Self::Chargeback(id, client_id)),
        }
    }

    /// Decodes a record if it has the shape `type, client, tx, amount`, and
    /// says so if it has not.
    pub fn decode_record(value: StringRecord, amount: Result<i32, AppError>) -> (decoded: Option<
        Result<Self, AppError>,
    >)
        ensures
            decoded is Some <==> decodable(record_fields(value)),
            decoded matches Some(outcome) ==> decoded_as(record_fields(value), amount, outcome),
    {
        if value.len() < 4 {
            return None;
        }
        let kind = sanitize_field(value.get(0).unwrap());
        match TransactionType::from_str(kind.as_str()) {
            Ok(_) => Some(Self::try_from_string_record(value, amount)),
            Err(_) => None,
        }
    }
}

/// Whether a line is the header `type,client,tx,amount`, in any mix of capital
/// and small letters and with spaces anywhere.
pub open spec fn header_like(line: Seq<char>) -> bool {
    same_ignoring_ascii_case(
        replaced(trimmed(line), ' ', Seq::empty()),
        "type,client,tx,amount"@,
    )
}

/// Tells whether the first line of an input names the columns rather than
/// holding a record.
pub fn is_header_line(first_line: &str) -> (yes: bool)
    ensures
        yes == header_like(first_line@),
{
    proof {
        reveal_strlit("");
    }
    let header_line = replace_char(first_line.trim(), ' ', "");
    assert(""@ =~= Seq::<char>::empty());
    header_line.as_str().eq_ignore_ascii_case("type,client,tx,amount")
}

} // verus!
