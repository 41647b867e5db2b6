//! What this crate takes on trust about the text functions of the standard
//! library, and the few text helpers built on them.

use std::num::ParseIntError;
use vstd::prelude::*;
use vstd::string::StringExecFns;

verus! {

/// What `str::trim` leaves of a text: the text without the whitespace at its
/// two ends, whitespace being what Unicode calls `White_Space`.
pub uninterp spec fn trimmed(text: Seq<char>) -> Seq<char>;

/// What `str::to_lowercase` makes of a text: its lowercase form under the
/// Unicode rules.
pub uninterp spec fn lowercased(text: Seq<char>) -> Seq<char>;

/// `str::trim`. Believed: the result depends on the characters alone.
pub assume_specification<'a>[ str::trim ](text: &'a str) -> (rest: &'a str)
    ensures
        rest@ == trimmed(text@),
;

/// `str::to_lowercase`. Believed: the result depends on the characters alone.
pub assume_specification[ str::to_lowercase ](text: &str) -> (lower: String)
    ensures
        lower@ == lowercased(text@),
;

/// `==` on `str`. Believed: two texts are equal exactly when they hold the
/// same characters in the same order.
#[verifier::external_body]
pub(crate) fn same_text(a: &str, b: &str) -> (same: bool)
    ensures
        same == (a@ == b@),
{
    a == b
}

/// Whether a character is one of `0` to `9`.
pub open spec fn is_digit(c: char) -> bool {
    48 <= c as u32 <= 57
}

/// Whether a text holds digits only.
pub open spec fn all_digits(text: Seq<char>) -> bool {
    forall|i: int| 0 <= i < text.len() ==> is_digit(#[trigger] text[i])
}

/// The number that a run of digits writes in decimal.
pub open spec fn digits_value(digits: Seq<char>) -> nat
    decreases digits.len(),
{
    if digits.len() == 0 {
        0
    } else {
        digits_value(digits.drop_last()) * 10 + (digits.last() as u32 - 48) as nat
    }
}

/// The number a text writes, if it is written as the integer parsers of the
/// standard library accept it for an unsigned type: an optional `+`, then one
/// or more digits and nothing else.
pub open spec fn unsigned_value(text: Seq<char>) -> Option<nat> {
    let digits = if text.len() > 0 && text[0] == '+' {
        text.subrange(1, text.len() as int)
    } else {
        text
    };
    if digits.len() > 0 && all_digits(digits) {
        Some(digits_value(digits))
    } else {
        None
    }
}

/// The number a text writes, if it writes one that is at most `max`.
pub open spec fn unsigned_upto(text: Seq<char>, max: nat) -> Option<nat> {
    match unsigned_value(text) {
        Some(n) => if n <= max {
            Some(n)
        } else {
            None
        },
        None => None,
    }
}

/// `str::parse::<u16>`. Believed: it succeeds exactly on an optional `+`
/// followed by one or more decimal digits whose value fits, and gives that
/// value.
#[verifier::external_body]
pub(crate) fn parse_u16(text: &str) -> (parsed: Result<u16, ParseIntError>)
    ensures
        match parsed {
            Ok(n) => unsigned_upto(text@, 0xffff) == Some(n as nat),
            Err(_) => unsigned_upto(text@, 0xffff) is None,
        },
{
    text.parse::<u16>()
}

/// `str::parse::<u32>`. Believed: it succeeds exactly on an optional `+`
/// followed by one or more decimal digits whose value fits, and gives that
/// value.
#[verifier::external_body]
pub(crate) fn parse_u32(text: &str) -> (parsed: Result<u32, ParseIntError>)
    ensures
        match parsed {
            Ok(n) => unsigned_upto(text@, 0xffff_ffff) == Some(n as nat),
            Err(_) => unsigned_upto(text@, 0xffff_ffff) is None,
        },
{
    text.parse::<u32>()
}

/// A text with every `from` in it replaced by `to`.
pub open spec fn replaced(text: Seq<char>, from: char, to: Seq<char>) -> Seq<char>
    decreases text.len(),
{
    if text.len() == 0 {
        Seq::empty()
    } else {
        replaced(text.drop_last(), from, to) + if text.last() == from {
            to
        } else {
            seq![text.last()]
        }
    }
}

/// `str::replace` with a character to look for. Believed: every occurrence of
/// the character gives way to `to`, and nothing else changes.
#[verifier::external_body]
pub(crate) fn replace_char(text: &str, from: char, to: &str) -> (changed: String)
    ensures
        changed@ == replaced(text@, from, to@),
{
    text.replace(from, to)
}

/// A character's code point, with the capitals `A` to `Z` counted as their
/// small letters.
pub open spec fn ascii_folded(c: char) -> int {
    if 65 <= c as u32 <= 90 {
        c as u32 + 32
    } else {
        c as u32 as int
    }
}

/// Whether two texts are the same once `A` to `Z` count as `a` to `z`.
pub open spec fn same_ignoring_ascii_case(a: Seq<char>, b: Seq<char>) -> bool {
    &&& a.len() == b.len()
    &&& forall|i: int| 0 <= i < a.len() ==> ascii_folded(#[trigger] a[i]) == ascii_folded(b[i])
}

/// `str::eq_ignore_ascii_case`. Believed: the texts match when they are as
/// long as each other and agree character by character, a capital ASCII
/// letter agreeing with its small letter.
pub assume_specification[ str::eq_ignore_ascii_case ](a: &str, b: &str) -> (same: bool)
    ensures
        same == same_ignoring_ascii_case(a@, b@),
;

/// Texts put one after the other with a comma between each two.
pub open spec fn joined(parts: Seq<Seq<char>>) -> Seq<char>
    decreases parts.len(),
{
    if parts.len() == 0 {
        Seq::empty()
    } else if parts.len() == 1 {
        parts[0]
    } else {
        joined(parts.drop_last()) + seq![','] + parts.last()
    }
}

/// The characters of each text of a list.
pub open spec fn texts(parts: Seq<String>) -> Seq<Seq<char>> {
    parts.map_values(|part: String| part@)
}

/// Puts texts one after the other with a comma between each two.
pub fn join_with_commas(parts: &Vec<String>) -> (line: String)
    ensures
        line@ == joined(texts(parts@)),
{
    let mut line = String::new();
    let mut i: usize = 0;
    while i < parts.len()
        invariant
            i <= parts.len(),
            line@ == joined(texts(parts@).take(i as int)),
        decreases parts.len() - i,
    {
        if i > 0 {
            line.append(",");
        }
        line.append(parts[i].as_str());
        proof {
            reveal_strlit(",");
            assert(","@ =~= seq![',']);
            let before = texts(parts@).take(i as int);
            let after = texts(parts@).take(i + 1);
            assert(after.drop_last() =~= before);
            assert(after.last() == parts@[i as int]@);
            if i == 0 {
                assert(joined(before) =~= Seq::<char>::empty());
                assert(joined(after) == after[0]);
            } else {
                assert(joined(after) == joined(before) + seq![','] + after.last());
            }
            assert(line@ =~= joined(after));
        }
        i = i + 1;
    }
    assert(texts(parts@).take(parts.len() as int) =~= texts(parts@));
    line
}

} // verus!
