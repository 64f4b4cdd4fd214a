//! Identifiers as the store keeps them: decimal text.
//!
//! Tenants, users, roles and channels are 64-bit numbers that the store holds
//! as text. Reading one back can fail; a row with such a value is set aside
//! and counted, and the rows around it are used.

use vstd::prelude::*;
use vstd::string::StringSliceAdditionalSpecFns;
use vstd::utf8::encode_utf8;
use crate::task::{Event, Pair};

verus! {

/// Whether `byte` is one of the characters `0` to `9`.
pub open spec fn is_digit(byte: u8) -> bool {
    48 <= byte <= 57
}

/// Whether `text` holds decimal digits only.
pub open spec fn all_digits(text: Seq<u8>) -> bool {
    forall|i: int| 0 <= i < text.len() ==> is_digit(#[trigger] text[i])
}

/// The number that a run of decimal digits denotes.
pub open spec fn digits_value(text: Seq<u8>) -> nat
    decreases text.len(),
{
    if text.len() == 0 {
        0
    } else {
        digits_value(text.drop_last()) * 10 + if is_digit(text.last()) {
            (text.last() - 48) as nat
        } else {
            0nat
        }
    }
}

/// The digits of `text`: all of it, but for one leading `+`.
pub open spec fn unsigned_part(text: Seq<u8>) -> Seq<u8> {
    if text.len() > 0 && text[0] == 43 {
        text.skip(1)
    } else {
        text
    }
}

/// The identifier that the bytes `text` denote: one or more decimal digits,
/// with or without a `+` in front, whose value fits in 64 bits.
pub open spec fn spec_parse_id(text: Seq<u8>) -> Option<u64> {
    let digits = unsigned_part(text);
    if digits.len() > 0 && all_digits(digits) && digits_value(digits) <= u64::MAX {
        Some(digits_value(digits) as u64)
    } else {
        None
    }
}

/// The identifier that `text` denotes, read from its UTF-8 bytes.
pub open spec fn id_of(text: Seq<char>) -> Option<u64> {
    spec_parse_id(encode_utf8(text))
}

/// More digits never denote less.
proof fn lemma_digits_grow(text: Seq<u8>, shorter: int)
    requires
        0 <= shorter <= text.len(),
    ensures
        digits_value(text.take(shorter)) <= digits_value(text),
    decreases text.len() - shorter,
{
    if shorter == text.len() {
        assert(text.take(shorter) =~= text);
    } else {
        lemma_digits_grow(text, shorter + 1);
        assert(text.take(shorter + 1).drop_last() =~= text.take(shorter));
    }
}

/// Reads an identifier back from the text the store keeps.
pub fn parse_id(text: &str) -> (id: Option<u64>)
    ensures
        id == id_of(text@),
{
    let bytes = text.as_bytes();
    let n = bytes.len();
    let start: usize = if n > 0 && bytes[0] == 43 {
        1
    } else {
        0
    };
    if start == n {
        return None;
    }
    let ghost digits = unsigned_part(bytes@);
    assert(digits =~= bytes@.skip(start as int));
    let mut value: u64 = 0;
    let mut i: usize = start;
    assert(digits.take(0) =~= Seq::<u8>::empty());
    while i < n
        invariant
            start <= i <= n,
            n == bytes@.len(),
            bytes@ == encode_utf8(text@),
            digits == unsigned_part(bytes@),
            digits == bytes@.skip(start as int),
            all_digits(digits.take(i - start)),
            value == digits_value(digits.take(i - start)),
        decreases n - i,
    {
        let byte = bytes[i];
        assert(byte == digits[i - start]);
        if byte < 48 || byte > 57 {
            assert(!is_digit(digits[i - start]));
            return None;
        }
        let digit: u64 = (byte - 48) as u64;
        proof {
            assert(digits.take(i - start + 1).drop_last() =~= digits.take(i - start));
            assert(digits.take(i - start + 1).last() == byte);
            lemma_digits_grow(digits, i - start + 1);
        }
        if value > (u64::MAX - digit) / 10 {
            assert(digits_value(digits.take(i - start + 1)) == value * 10 + digit);
            return None;
        }
        value = value * 10 + digit;
        i = i + 1;
    }
    assert(digits.take(i - start) =~= digits);
    Some(value)
}

/// The pair that a stored row denotes, if both of its identifiers can be read.
pub open spec fn pair_of(tenant: Seq<char>, user: Seq<char>) -> Option<Pair> {
    match (id_of(tenant), id_of(user)) {
        (Some(tenant), Some(user)) => Some(Pair { tenant, user }),
        _ => None,
    }
}

/// Reads a stored row back as a pair.
pub fn parse_pair(tenant: &str, user: &str) -> (pair: Option<Pair>)
    ensures
        pair == pair_of(tenant@, user@),
{
    match parse_id(tenant) {
        Some(tenant) => match parse_id(user) {
            Some(user) => Some(Pair { tenant, user }),
            None => None,
        },
        None => None,
    }
}

/// The answer to a lookup of a tenant's setting, from what the store holds:
/// nothing, an identifier, or text that is none.
pub open spec fn setting_of(stored: Option<Seq<char>>) -> Event {
    match stored {
        None => Event::NotConfigured,
        Some(text) => match id_of(text) {
            Some(id) => Event::Found(id),
            None => Event::Malformed,
        },
    }
}

/// Turns what the store holds for a tenant's role or channel into the answer
/// a task expects.
pub fn read_setting(stored: Option<&str>) -> (answer: Event)
    ensures
        answer == setting_of(
            match stored {
                Some(text) => Some(text@),
                None => None,
            },
        ),
{
    match stored {
        None => Event::NotConfigured,
        Some(text) => match parse_id(text) {
            Some(id) => Event::Found(id),
            None => Event::Malformed,
        },
    }
}

/// The rows of a listing that could be read, and how many could not.
#[derive(Debug, PartialEq, Eq)]
pub struct Listing {
    pub pairs: Vec<Pair>,
    pub malformed: usize,
}

/// The pairs that the rows denote, in their order, without the unreadable ones.
pub open spec fn readable(rows: Seq<(String, String)>) -> Seq<Pair>
    decreases rows.len(),
{
    if rows.len() == 0 {
        Seq::empty()
    } else {
        let before = readable(rows.drop_last());
        match pair_of(rows.last().0@, rows.last().1@) {
            Some(pair) => before.push(pair),
            None => before,
        }
    }
}

/// How many of the rows denote no pair.
pub open spec fn unreadable(rows: Seq<(String, String)>) -> nat
    decreases rows.len(),
{
    if rows.len() == 0 {
        0
    } else {
        unreadable(rows.drop_last()) + if pair_of(rows.last().0@, rows.last().1@) is None {
            1nat
        } else {
            0nat
        }
    }
}

/// Reads the rows of a listing back as pairs. An unreadable row is counted and
/// left out; it does not keep the others from being used.
pub fn read_rows(rows: &Vec<(String, String)>) -> (listing: Listing)
    ensures
        listing.pairs@ == readable(rows@),
        listing.malformed == unreadable(rows@),
{
    let mut pairs: Vec<Pair> = Vec::new();
    let mut malformed: usize = 0;
    let mut i: usize = 0;
    assert(rows@.take(0) =~= Seq::<(String, String)>::empty());
    while i < rows.len()
        invariant
            i <= rows.len(),
            pairs@ == readable(rows@.take(i as int)),
            malformed == unreadable(rows@.take(i as int)),
            malformed <= i,
        decreases rows.len() - i,
    {
        assert(rows@.take(i + 1).drop_last() =~= rows@.take(i as int));
        assert(rows@.take(i + 1).last() == rows@[i as int]);
        match parse_pair(rows[i].0.as_str(), rows[i].1.as_str()) {
            Some(pair) => pairs.push(pair),
            None => malformed = malformed + 1,
        }
        i = i + 1;
    }
    assert(rows@.take(i as int) =~= rows@);
    Listing { pairs, malformed }
}

} // verus!
