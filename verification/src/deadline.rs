//! Deadline timestamps.
//!
//! Soroban stores deadlines as Unix timestamps (`u64` seconds since the epoch).
//! This module parses RFC 3339 / ISO 8601 datetimes into such timestamps,
//! renders timestamps as RFC 3339 text in UTC, and tells whether a timestamp
//! lies in the future. The calendar work is chrono's; the rules around it are
//! this library's.
use chrono::TimeZone;
use vstd::prelude::*;

use crate::decimal::{decimal_text, is_digit, push_decimal};
use crate::error::{CliError, CliErrorModel};

verus! {

/// The last second whose UTC year has four digits: 9999-12-31T23:59:59Z.
pub const LAST_FOUR_DIGIT_YEAR_SECOND: u64 = 253402300799;

/// What chrono's `DateTime::parse_from_rfc3339` gives for `text`, taken as
/// Unix seconds by `DateTime::timestamp`; `None` where chrono refuses the text.
pub uninterp spec fn rfc3339_epoch_seconds(text: Seq<char>) -> Option<i64>;

/// What chrono renders for the UTC instant `secs` seconds after the epoch
/// (`Utc.timestamp_opt(secs, 0).single()` formatted with
/// `"%Y-%m-%dT%H:%M:%SZ"`); `None` where that instant is out of chrono's range.
pub uninterp spec fn utc_rfc3339_text(secs: i64) -> Option<Seq<char>>;

/// The positions of digits in a "YYYY-MM-DDTHH:MM:SSZ" text.
pub open spec fn is_digit_position(i: int) -> bool {
    (0 <= i < 4) || i == 5 || i == 6 || i == 8 || i == 9 || i == 11 || i == 12 || i == 14 || i == 15
        || i == 17 || i == 18
}

/// A text of the form "YYYY-MM-DDTHH:MM:SSZ" (upper-case `T` and `Z`, a
/// four-digit year, no fraction of a second, no leap second): the form that
/// `format_timestamp` writes.
pub open spec fn canonical_utc_text(t: Seq<char>) -> bool {
    &&& t.len() == 20
    &&& forall|i: int| #![trigger t[i]] is_digit_position(i) ==> is_digit(t[i])
    &&& t[4] == '-' && t[7] == '-'
    &&& t[10] == 'T'
    &&& t[13] == ':' && t[16] == ':'
    &&& t[17] <= '5'
    &&& t[19] == 'Z'
}

/// `a` comes before `b` in the order of their character codes, both having
/// the same length.
pub open spec fn text_before(a: Seq<char>, b: Seq<char>) -> bool {
    &&& a.len() == b.len()
    &&& exists|i: int|
        0 <= i < a.len() && a.take(i) == b.take(i) && (#[trigger] a[i] as u32) < (b[i] as u32)
}

/// Chrono renders every instant from the epoch up to (not including) `secs`,
/// and each such rendering comes before `text` in character order.
pub open spec fn follows_earlier_renderings(secs: i64, text: Seq<char>) -> bool {
    forall|earlier: i64|
        0 <= earlier < secs ==> #[trigger] utc_rfc3339_text(earlier) is Some && text_before(
            utc_rfc3339_text(earlier)->0,
            text,
        )
}

/// Parses `text` with chrono's `DateTime::parse_from_rfc3339` and takes the
/// result as Unix seconds with `DateTime::timestamp`.
/// Trusted: the result is the named value `rfc3339_epoch_seconds(text@)`; and
/// where `text` is in the form "YYYY-MM-DDTHH:MM:SSZ" and chrono reads it,
/// chrono's UTC rendering of the second read is `text` again (the parser takes
/// the fields as written, `Z` as offset zero, and `%Y-%m-%dT%H:%M:%SZ` writes
/// the same fields with the same widths).
#[verifier::external_body]
fn chrono_rfc3339_seconds(text: &str) -> (secs: Option<i64>)
    ensures
        secs == rfc3339_epoch_seconds(text@),
        canonical_utc_text(text@) && secs is Some ==> utc_rfc3339_text(secs->0) == Some(text@),
{
    match chrono::DateTime::parse_from_rfc3339(text) {
        Ok(dt) => Some(dt.timestamp()),
        Err(_) => None,
    }
}

/// Renders the UTC instant `secs` with chrono: `Utc.timestamp_opt(secs, 0)`,
/// `single()`, then `format("%Y-%m-%dT%H:%M:%SZ")`.
/// Trusted: the result is the named value `utc_rfc3339_text(secs)`; and for an
/// instant in the years 1970 to 9999 there is a text, in the form
/// "YYYY-MM-DDTHH:MM:SSZ" (`%Y` writes such a year with four digits, the other
/// fields have two, and a whole second is never a leap second), which chrono's
/// `parse_from_rfc3339` reads back as the same second, and which comes after
/// the text of every earlier such instant in character order (the fields are
/// written most significant first with fixed widths).
#[verifier::external_body]
fn chrono_utc_rfc3339(secs: i64) -> (text: Option<String>)
    ensures
        option_text(text) == utc_rfc3339_text(secs),
        0 <= secs <= LAST_FOUR_DIGIT_YEAR_SECOND ==> text is Some,
        0 <= secs <= LAST_FOUR_DIGIT_YEAR_SECOND ==> rfc3339_epoch_seconds(text->0@) == Some(secs),
        0 <= secs <= LAST_FOUR_DIGIT_YEAR_SECOND ==> canonical_utc_text(text->0@),
        0 <= secs <= LAST_FOUR_DIGIT_YEAR_SECOND ==> follows_earlier_renderings(secs, text->0@),
{
    match chrono::Utc.timestamp_opt(secs, 0).single() {
        Some(dt) => Some(dt.format("%Y-%m-%dT%H:%M:%SZ").to_string()),
        None => None,
    }
}

/// The current time from chrono's `Utc::now`, as Unix seconds.
/// Trusted: it is not negative (`Utc::now` panics when the system clock is set
/// before the epoch, a state of the machine that no precondition can exclude).
/// Nothing else is stated: the value depends on the clock.
#[verifier::external_body]
fn chrono_now_seconds() -> (now: i64)
    ensures
        now >= 0,
{
    chrono::Utc::now().timestamp()
}

/// The text of an optional `String`.
pub open spec fn option_text(o: Option<String>) -> Option<Seq<char>> {
    match o {
        Some(s) => Some(s@),
        None => None,
    }
}

/// The mathematical value of a deadline result.
pub open spec fn deadline_result(r: Result<u64, CliError>) -> Result<u64, CliErrorModel> {
    match r {
        Ok(t) => Ok(t),
        Err(e) => Err(e@),
    }
}

/// The context of the error for a datetime before the epoch.
pub open spec fn before_epoch_text() -> Seq<char> {
    "deadline must be after Unix epoch (1970-01-01T00:00:00Z)"@
}

/// The deadline that `text` gives, where chrono read it as `parsed` seconds.
pub open spec fn deadline_from_seconds(text: Seq<char>, parsed: Option<i64>) -> Result<u64, CliErrorModel> {
    match parsed {
        None => Err(CliErrorModel::InvalidDeadline(text)),
        Some(t) => if t < 0 {
            Err(CliErrorModel::InvalidDeadline(before_epoch_text()))
        } else {
            Ok(t as u64)
        },
    }
}

/// The deadline that an RFC 3339 text gives.
pub open spec fn parse_iso8601_spec(text: Seq<char>) -> Result<u64, CliErrorModel> {
    deadline_from_seconds(text, rfc3339_epoch_seconds(text))
}

/// The text shown for timestamp `ts`, where chrono rendered it as `rendered`.
pub open spec fn timestamp_display(ts: u64, rendered: Option<Seq<char>>) -> Seq<char> {
    match rendered {
        Some(t) => t,
        None => "<invalid timestamp: "@ + decimal_text(ts as nat) + ">"@,
    }
}

/// The text that `format_timestamp` gives for `ts`: chrono's rendering where
/// the timestamp is a second count that chrono takes (`i64`), else the
/// out-of-range text.
pub open spec fn format_timestamp_spec(ts: u64) -> Seq<char> {
    if ts <= i64::MAX {
        timestamp_display(ts, utc_rfc3339_text(ts as i64))
    } else {
        timestamp_display(ts, None)
    }
}

/// A deadline is exactly chrono's reading of the text: a second on or after
/// the epoch is kept as it is, whatever the text looked like (offset,
/// fraction, case); a second before the epoch is refused as such; a text that
/// chrono cannot read is refused with the text itself.
pub proof fn lemma_deadline_follows_chrono(text: Seq<char>, t: i64)
    ensures
        t >= 0 ==> deadline_from_seconds(text, Some(t)) == Ok::<u64, CliErrorModel>(t as u64),
        t < 0 ==> deadline_from_seconds(text, Some(t)) == Err::<u64, CliErrorModel>(
            CliErrorModel::InvalidDeadline(
                "deadline must be after Unix epoch (1970-01-01T00:00:00Z)"@,
            ),
        ),
        deadline_from_seconds(text, None) == Err::<u64, CliErrorModel>(
            CliErrorModel::InvalidDeadline(text),
        ),
        rfc3339_epoch_seconds(text) == Some(t) && t >= 0 ==> parse_iso8601_spec(text) == Ok::<
            u64,
            CliErrorModel,
        >(t as u64),
        rfc3339_epoch_seconds(text) is None ==> parse_iso8601_spec(text) == Err::<u64, CliErrorModel>(
            CliErrorModel::InvalidDeadline(text),
        ),
{
}

/// Turns chrono's reading of `text` into a deadline: a second count before
/// the epoch is refused, and so is a text that chrono could not read.
pub fn deadline_from_rfc3339_seconds(text: &str, parsed: Option<i64>) -> (res: Result<u64, CliError>)
    ensures
        deadline_result(res) == deadline_from_seconds(text@, parsed),
{
    match parsed {
        None => Err(CliError::invalid_deadline(text)),
        Some(t) => {
            if t < 0 {
                Err(CliError::invalid_deadline("deadline must be after Unix epoch (1970-01-01T00:00:00Z)"))
            } else {
                Ok(t as u64)
            }
        },
    }
}

/// Parse an ISO 8601 datetime string (e.g. "2026-12-31T23:59:59Z") into a
/// Unix timestamp suitable for use as a ledger deadline.
///
/// Accepts any RFC 3339 text that chrono can parse, timezone offsets
/// included; the result is always UTC epoch seconds. A text in the form
/// "YYYY-MM-DDTHH:MM:SSZ" that is accepted is given back by `format_timestamp`
/// of the result.
pub fn parse_iso8601_to_timestamp(s: &str) -> (res: Result<u64, CliError>)
    ensures
        deadline_result(res) == parse_iso8601_spec(s@),
        canonical_utc_text(s@) ==> (res matches Ok(t) ==> format_timestamp_spec(t) == s@),
{
    let parsed = chrono_rfc3339_seconds(s);
    deadline_from_rfc3339_seconds(s, parsed)
}

/// The text shown for `ts`, where chrono rendered it as `rendered`: that
/// rendering, or `<invalid timestamp: ts>` where there is none.
pub fn timestamp_text(ts: u64, rendered: Option<String>) -> (text: String)
    ensures
        text@ == timestamp_display(ts, option_text(rendered)),
{
    match rendered {
        Some(t) => t,
        None => {
            let mut text = String::from_str("<invalid timestamp: ");
            push_decimal(&mut text, ts);
            text.append(">");
            text
        },
    }
}

/// Format a Unix timestamp as an ISO 8601 / RFC 3339 string in UTC, such as
/// "2026-12-31T23:59:59Z"; a timestamp out of chrono's range gives
/// "<invalid timestamp: ts>". For every timestamp up to the end of the year
/// 9999 the text has the form "YYYY-MM-DDTHH:MM:SSZ", parsing it back gives the
/// same timestamp, and the texts of earlier timestamps come before it in
/// character order.
pub fn format_timestamp(ts: u64) -> (text: String)
    ensures
        text@ == format_timestamp_spec(ts),
        ts <= LAST_FOUR_DIGIT_YEAR_SECOND ==> parse_iso8601_spec(text@) == Ok::<u64, CliErrorModel>(ts),
        ts <= LAST_FOUR_DIGIT_YEAR_SECOND ==> canonical_utc_text(text@),
        ts <= LAST_FOUR_DIGIT_YEAR_SECOND ==> forall|earlier: u64|
            earlier < ts ==> text_before(#[trigger] format_timestamp_spec(earlier), text@),
{
    if ts > 0x7fff_ffff_ffff_ffffu64 {
        return timestamp_text(ts, None);
    }
    let rendered = chrono_utc_rfc3339(ts as i64);
    proof {
        if ts <= LAST_FOUR_DIGIT_YEAR_SECOND {
            assert forall|earlier: u64| earlier < ts implies text_before(
                #[trigger] format_timestamp_spec(earlier),
                rendered->0@,
            ) by {
                assert(utc_rfc3339_text(earlier as i64) is Some);
            }
        }
    }
    timestamp_text(ts, rendered)
}

/// The timestamp `ts`, in seconds since the epoch, lies strictly after the
/// instant `now`.
pub open spec fn timestamp_after(ts: u64, now: i64) -> bool {
    ts as int > now as int
}

/// Being after an instant is strict and keeps to the order of timestamps: the
/// instant's own second is not after it, the next second is, and a later
/// timestamp is after every instant that an earlier one is after.
pub proof fn lemma_after_is_strict(ts: u64, later: u64, now: i64)
    ensures
        now >= 0 ==> !timestamp_after(now as u64, now),
        0 <= now < i64::MAX ==> timestamp_after((now + 1) as u64, now),
        ts <= later && timestamp_after(ts, now) ==> timestamp_after(later, now),
        ts as int <= now ==> !timestamp_after(ts, now),
{
}

/// Whether the timestamp `ts` is strictly after the instant `now`.
pub fn is_after(ts: u64, now: i64) -> (later: bool)
    ensures
        later == timestamp_after(ts, now),
{
    if ts > 0x7fff_ffff_ffff_ffffu64 {
        true
    } else {
        (ts as i64) > now
    }
}

/// Return `true` if the given Unix timestamp is strictly in the future
/// relative to the current UTC time. Like chrono's `Utc::now`, it panics when
/// the system clock is set before the epoch.
pub fn is_future_timestamp(ts: u64) -> (future: bool)
    ensures
        exists|now: i64| now >= 0 && future == #[trigger] timestamp_after(ts, now),
        ts == 0 ==> !future,
        ts > i64::MAX ==> future,
{
    let now = chrono_now_seconds();
    is_after(ts, now)
}

} // verus!
