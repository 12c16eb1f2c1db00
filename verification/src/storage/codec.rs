//! Stored text: instants as RFC 3339, lists of days and single values as
//! JSON.

use crate::text::{append_decimal, decimal_text};
use crate::time::{Timestamp, MAX_SECS, MIN_SECS};
use vstd::prelude::*;
use vstd::string::*;

verus! {

/// The instant that `chrono::DateTime::parse_from_rfc3339` reads from
/// `text`, as seconds and nanoseconds on the UTC time line; `None` where it
/// refuses the text.
pub uninterp spec fn rfc3339_instant(text: Seq<char>) -> Option<(i64, u32)>;

/// The text that `chrono::DateTime::to_rfc3339` writes for the instant of
/// UTC with the given seconds and nanoseconds; `None` where `chrono` cannot
/// represent the instant.
pub uninterp spec fn rfc3339_text(secs: i64, nanos: u32) -> Option<Seq<char>>;

/// The numbers that `serde_json::from_str` reads from `text` as a list of
/// `u8`; `None` where it refuses the text.
pub uninterp spec fn json_days(text: Seq<char>) -> Option<Seq<u8>>;

/// The string that `serde_json::from_str` reads from `text`; `None` where it
/// refuses the text.
pub uninterp spec fn json_string(text: Seq<char>) -> Option<Seq<char>>;

/// The characters that JSON allows around a value: space, line feed, tab and
/// carriage return.
pub open spec fn is_json_space(c: char) -> bool {
    c == ' ' || c == '\n' || c == '\t' || c == '\r'
}

/// `text` without the JSON space that it begins with.
pub open spec fn without_leading_space(text: Seq<char>) -> Seq<char>
    decreases text.len(),
{
    if text.len() > 0 && is_json_space(text[0]) {
        without_leading_space(text.skip(1))
    } else {
        text
    }
}

/// `text` without the JSON space that it ends with.
pub open spec fn without_trailing_space(text: Seq<char>) -> Seq<char>
    decreases text.len(),
{
    if text.len() > 0 && is_json_space(text.last()) {
        without_trailing_space(text.drop_last())
    } else {
        text
    }
}

/// The truth value that a JSON text reads as: that of the word `true` or
/// `false`, with JSON space around it or none; no value for any other text.
pub open spec fn json_bool(text: Seq<char>) -> Option<bool> {
    let word = without_trailing_space(without_leading_space(text));
    if word == "true"@ {
        Some(true)
    } else if word == "false"@ {
        Some(false)
    } else {
        None
    }
}

/// The number that `serde_json::from_str` reads from `text` as an `i32`;
/// `None` where it refuses the text.
pub uninterp spec fn json_i32(text: Seq<char>) -> Option<i32>;

/// The JSON that `serde_json::to_string` writes for a string.
pub uninterp spec fn json_of_string(text: Seq<char>) -> Seq<char>;

/// `chrono::DateTime::parse_from_rfc3339`, moved to UTC with
/// `with_timezone` and read as `timestamp()` and
/// `timestamp_subsec_nanos()`. The result is named, not described.
#[verifier::external_body]
pub(crate) fn parse_rfc3339(text: &str) -> (r: Option<(i64, u32)>)
    ensures
        r == rfc3339_instant(text@),
{
    chrono::DateTime::parse_from_rfc3339(text).ok().map(
        |t| {
            let utc = t.with_timezone(&chrono::Utc);
            (utc.timestamp(), utc.timestamp_subsec_nanos())
        },
    )
}

/// `chrono::DateTime::from_timestamp` followed by `to_rfc3339`. The text is
/// named, not described. `from_timestamp` refuses only seconds out of range
/// and invalid nanoseconds, and nanoseconds below one billion are valid, so
/// an instant in the representable range with such nanoseconds is written.
#[verifier::external_body]
pub(crate) fn format_rfc3339(secs: i64, nanos: u32) -> (r: Option<String>)
    ensures
        match r {
            Some(text) => rfc3339_text(secs, nanos) == Some(text@),
            None => rfc3339_text(secs, nanos) is None,
        },
        MIN_SECS <= secs <= MAX_SECS && nanos < 1_000_000_000 ==> r is Some,
{
    chrono::DateTime::from_timestamp(secs, nanos).map(|t| t.to_rfc3339())
}

/// `serde_json::from_str` for a list of `u8`. The result is named, not
/// described.
#[verifier::external_body]
pub(crate) fn parse_json_days(text: &str) -> (r: Option<Vec<u8>>)
    ensures
        match r {
            Some(days) => json_days(text@) == Some(days@),
            None => json_days(text@) is None,
        },
{
    serde_json::from_str::<Vec<u8>>(text).ok()
}

/// `serde_json::from_str` for a string. The result is named, not described.
#[verifier::external_body]
pub(crate) fn parse_json_string(text: &str) -> (r: Option<String>)
    ensures
        match r {
            Some(s) => json_string(text@) == Some(s@),
            None => json_string(text@) is None,
        },
{
    serde_json::from_str::<String>(text).ok()
}

/// `serde_json::from_str` for a truth value: it skips the JSON space before
/// the value, reads the word `true` or `false`, and refuses anything but
/// JSON space after it.
#[verifier::external_body]
pub(crate) fn parse_json_bool(text: &str) -> (r: Option<bool>)
    ensures
        r == json_bool(text@),
{
    serde_json::from_str::<bool>(text).ok()
}

/// `serde_json::from_str` for an `i32`. The result is named, not described.
#[verifier::external_body]
pub(crate) fn parse_json_i32(text: &str) -> (r: Option<i32>)
    ensures
        r == json_i32(text@),
{
    serde_json::from_str::<i32>(text).ok()
}

/// `serde_json::to_string` for a string. What it writes is named, not
/// described. It fails only where a value refuses to be written or a map has
/// a key that is no string; a string is always written.
#[verifier::external_body]
pub(crate) fn write_json_string(text: &str) -> (r: Option<String>)
    ensures
        match r {
            Some(json) => json@ == json_of_string(text@),
            None => false,
        },
{
    serde_json::to_string(text).ok()
}

/// The numbers of a list in decimal, each but the first after a comma.
pub open spec fn comma_separated(days: Seq<u8>) -> Seq<char>
    decreases days.len(),
{
    if days.len() == 0 {
        Seq::<char>::empty()
    } else if days.len() == 1 {
        decimal_text(days[0] as int)
    } else {
        comma_separated(days.drop_last()) + seq![','] + decimal_text(days.last() as int)
    }
}

/// A list of days as JSON: the numbers in decimal, separated by commas,
/// between square brackets.
pub open spec fn days_json(days: Seq<u8>) -> Seq<char> {
    seq!['['] + comma_separated(days) + seq![']']
}

/// `serde_json::to_string` for a list of `u8`, which it writes as a JSON
/// array without spaces. It fails only where a value refuses to be written
/// or a map has a key that is no string; a list of `u8` is always written.
#[verifier::external_body]
pub(crate) fn write_json_days(days: &Vec<u8>) -> (r: Option<String>)
    ensures
        match r {
            Some(json) => json@ == days_json(days@),
            None => false,
        },
{
    serde_json::to_string(days).ok()
}

/// A truth value as JSON.
pub open spec fn bool_json(value: bool) -> Seq<char> {
    if value {
        "true"@
    } else {
        "false"@
    }
}

/// The instant can be written as RFC 3339.
pub open spec fn writable(at: Timestamp) -> bool {
    rfc3339_text(at.secs, at.nanos) is Some
}

/// The instant, where there is one, can be written as RFC 3339.
pub open spec fn optional_writable(at: Option<Timestamp>) -> bool {
    at matches Some(t) ==> writable(t)
}

/// The text of an optional instant.
pub open spec fn optional_rfc3339_text(at: Option<Timestamp>) -> Option<Seq<char>> {
    match at {
        Some(t) => rfc3339_text(t.secs, t.nanos),
        None => None,
    }
}

/// An instant as a clock gives it: in the representable range, with
/// nanoseconds below one billion. Such an instant can always be written.
pub open spec fn is_plain(at: Timestamp) -> bool {
    at.wf() && at.nanos < 1_000_000_000
}

/// The instant, where there is one, is as a clock gives it.
pub open spec fn optional_plain(at: Option<Timestamp>) -> bool {
    at matches Some(t) ==> is_plain(t)
}

/// The instant written in `text` as RFC 3339, where it is one that can be
/// represented.
pub open spec fn instant_of(text: Seq<char>) -> Option<Timestamp> {
    match rfc3339_instant(text) {
        Some((secs, nanos)) => if (Timestamp { secs, nanos }).wf() {
            Some(Timestamp { secs, nanos })
        } else {
            None
        },
        None => None,
    }
}

/// The instant that a parse gave, where it is one that can be represented.
pub fn checked_instant(parsed: Option<(i64, u32)>) -> (r: Option<Timestamp>)
    ensures
        r == match parsed {
            Some((secs, nanos)) => if (Timestamp { secs, nanos }).wf() {
                Some(Timestamp { secs, nanos })
            } else {
                None
            },
            None => None,
        },
        r matches Some(t) ==> t.wf(),
{
    match parsed {
        Some((secs, nanos)) => Timestamp::new(secs, nanos),
        None => None,
    }
}

/// Reads an instant written as RFC 3339.
pub fn timestamp_from_text(text: &str) -> (r: Option<Timestamp>)
    ensures
        r == instant_of(text@),
        r matches Some(t) ==> t.wf(),
{
    checked_instant(parse_rfc3339(text))
}

/// Reads an instant from a column that may be empty: none for an empty
/// column, and none for text that is not an instant.
pub open spec fn optional_instant_of(text: Option<String>) -> Option<Timestamp> {
    match text {
        Some(t) => instant_of(t@),
        None => None,
    }
}

/// Reads an instant from a column that may be empty.
pub fn optional_timestamp(text: &Option<String>) -> (r: Option<Timestamp>)
    ensures
        r == optional_instant_of(*text),
{
    match text {
        Some(t) => timestamp_from_text(t.as_str()),
        None => None,
    }
}

/// Whether a list of days is what a column of JSON holds: the list that the
/// text reads as, and none for an empty column or for text that is no list.
pub open spec fn is_days_of(days: Option<Vec<u8>>, text: Option<String>) -> bool {
    match text {
        Some(t) => match json_days(t@) {
            Some(list) => days matches Some(v) && v@ == list,
            None => days is None,
        },
        None => days is None,
    }
}

/// Reads a list of days from a column that may be empty.
pub fn days_from_json(text: &Option<String>) -> (r: Option<Vec<u8>>)
    ensures
        is_days_of(r, *text),
{
    match text {
        Some(t) => parse_json_days(t.as_str()),
        None => None,
    }
}

/// Writes a truth value as JSON.
pub fn bool_to_json(value: bool) -> (json: String)
    ensures
        json@ == bool_json(value),
{
    if value {
        String::from_str("true")
    } else {
        String::from_str("false")
    }
}

/// Writes an `i32` as JSON.
pub fn i32_to_json(value: i32) -> (json: String)
    ensures
        json@ == decimal_text(value as int),
{
    let mut json = String::new();
    append_decimal(&mut json, value);
    assert(json@ =~= decimal_text(value as int));
    json
}

} // verus!
