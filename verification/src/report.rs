//! The report: one line of text per account, amounts written in currency
//! units with four decimals.

use crate::account::{AccountState, User};
use vstd::prelude::*;
use vstd::string::StringExecFns;

verus! {

/// Ticks in one currency unit.
pub const TICKS_PER_UNIT: u128 = 10_000;

/// The character for one decimal digit.
pub open spec fn digit(d: int) -> char
    recommends
        0 <= d < 10,
{
    if d == 0 {
        '0'
    } else if d == 1 {
        '1'
    } else if d == 2 {
        '2'
    } else if d == 3 {
        '3'
    } else if d == 4 {
        '4'
    } else if d == 5 {
        '5'
    } else if d == 6 {
        '6'
    } else if d == 7 {
        '7'
    } else if d == 8 {
        '8'
    } else {
        '9'
    }
}

/// A number in decimal, without sign and without leading zeros.
pub open spec fn decimal(n: nat) -> Seq<char>
    decreases n,
{
    if n < 10 {
        seq![digit(n as int)]
    } else {
        decimal(n / 10).push(digit((n % 10) as int))
    }
}

/// A tick count in currency units: a minus sign if negative, the whole units,
/// a point, and exactly four decimals.
pub open spec fn ticks_text(ticks: int) -> Seq<char> {
    let size = if ticks < 0 {
        -ticks
    } else {
        ticks
    };
    let sign = if ticks < 0 {
        seq!['-']
    } else {
        Seq::<char>::empty()
    };
    sign + decimal((size / 10_000) as nat) + seq![
        '.',
        digit(size / 1000 % 10),
        digit(size / 100 % 10),
        digit(size / 10 % 10),
        digit(size % 10),
    ]
}

/// `true` or `false`, spelled out.
pub open spec fn bool_text(b: bool) -> Seq<char> {
    if b {
        seq!['t', 'r', 'u', 'e']
    } else {
        seq!['f', 'a', 'l', 's', 'e']
    }
}

impl AccountState {
    /// The account's line of the report: client, available, held, total and
    /// lock, with commas between.
    pub open spec fn csv_row(self) -> Seq<char> {
        decimal(self.id as nat) + seq![','] + ticks_text(self.available()) + seq![',']
            + ticks_text(self.held()) + seq![','] + ticks_text(self.total()) + seq![',']
            + bool_text(self.locked)
    }
}

fn digit_text(d: u8) -> (text: &'static str)
    requires
        d < 10,
    ensures
        text@ == seq![digit(d as int)],
{
    proof {
        reveal_strlit("0");
        reveal_strlit("1");
        reveal_strlit("2");
        reveal_strlit("3");
        reveal_strlit("4");
        reveal_strlit("5");
        reveal_strlit("6");
        reveal_strlit("7");
        reveal_strlit("8");
        reveal_strlit("9");
    }
    let text = match d {
        0 => "0",
        1 => "1",
        2 => "2",
        3 => "3",
        4 => "4",
        5 => "5",
        6 => "6",
        7 => "7",
        8 => "8",
        _ => "9",
    };
    assert(text@ =~= seq![digit(d as int)]);
    text
}

fn push_decimal(out: &mut String, n: u128)
    ensures
        final(out)@ == old(out)@ + decimal(n as nat),
    decreases n,
{
    if n >= 10 {
        push_decimal(out, n / 10);
    }
    out.append(digit_text((n % 10) as u8));
    assert(out@ =~= old(out)@ + decimal(n as nat));
}

fn push_ticks(out: &mut String, ticks: i128)
    ensures
        final(out)@ == old(out)@ + ticks_text(ticks as int),
{
    proof {
        reveal_strlit("-");
        reveal_strlit(".");
    }
    let size: u128 = if ticks < 0 {
        out.append("-");
        (-(ticks + 1)) as u128 + 1
    } else {
        ticks as u128
    };
    push_decimal(out, size / TICKS_PER_UNIT);
    out.append(".");
    out.append(digit_text((size / 1000 % 10) as u8));
    out.append(digit_text((size / 100 % 10) as u8));
    out.append(digit_text((size / 10 % 10) as u8));
    out.append(digit_text((size % 10) as u8));
    assert(out@ =~= old(out)@ + ticks_text(ticks as int));
}

/// Writes a tick count in currency units with four decimals: 15000 ticks are
/// `1.5000`, -5 ticks are `-0.0005`.
pub fn format_ticks(ticks: i128) -> (text: String)
    ensures
        text@ == ticks_text(ticks as int),
{
    let mut text = String::new();
    push_ticks(&mut text, ticks);
    text
}

impl User {
    /// The names of the columns of `to_csv_row`.
    pub fn csv_header() -> (header: &'static str)
        ensures
            header@ == "client,available,held,total,locked"@,
    {
        "client,available,held,total,locked"
    }

    /// The account's line of the report.
    pub fn to_csv_row(&self) -> (row: String)
        ensures
            row@ == self@.csv_row(),
    {
        proof {
            reveal_strlit(",");
            reveal_strlit("true");
            reveal_strlit("false");
        }
        let mut row = String::new();
        push_decimal(&mut row, self.id as u128);
        row.append(",");
        push_ticks(&mut row, self.available());
        row.append(",");
        push_ticks(&mut row, self.held());
        row.append(",");
        push_ticks(&mut row, self.total());
        row.append(",");
        if self.locked {
            row.append("true");
        } else {
            row.append("false");
        }
        assert(row@ =~= self@.csv_row());
        row
    }
}

} // verus!
