//! Format-aware temporal parsing: strftime-style patterns, timezone
//! disambiguation, and epoch truncations.
//!
//! The row-level work of reading a pattern against a string is done by
//! `chrono` (and, for named zones, `chrono-tz`) behind trusted wrappers;
//! the fallback decisions between the zone-aware reading, the naive
//! reading and the date-only reading, and the numeric epoch conversions,
//! are verified here.

use vstd::prelude::*;

use crate::errors::{ErrView, KernelError};
use chrono::TimeZone;

verus! {

/// Outcome of chrono's strftime parse of a string against a pattern:
/// `None` when the pattern matches, else the parser's message.
pub uninterp spec fn strftime_parse_error(s: Seq<char>, f: Seq<char>) -> Option<Seq<char>>;

/// The zone-aware interpretation of the fields parsed from `s` against
/// `f`, as an instant (seconds since the Unix epoch, nanoseconds of the
/// second), or the error message when the fields carry no usable zone.
pub uninterp spec fn strftime_zoned(s: Seq<char>, f: Seq<char>) -> Result<(int, int), Seq<char>>;

/// The timezone-naive date-time interpretation of the fields parsed from
/// `s` against `f`, as local wall-clock seconds and nanoseconds counted
/// as if from the Unix epoch.
pub uninterp spec fn strftime_naive_datetime(s: Seq<char>, f: Seq<char>) -> Result<(int, int), Seq<char>>;

/// The date-only interpretation of the fields parsed from `s` against
/// `f`, as the wall-clock seconds of that date's midnight.
pub uninterp spec fn strftime_naive_date(s: Seq<char>, f: Seq<char>) -> Result<int, Seq<char>>;

/// Whether `name` is a recognized IANA timezone name.
pub uninterp spec fn iana_zone(name: Seq<char>) -> bool;

/// Localization of a naive wall-clock instant into the named zone:
/// `Some` of the absolute instant when exactly one matches, `None` when
/// the local time is ambiguous (fall-back overlap), impossible
/// (spring-forward gap), out of range, or the name is unrecognized.
pub uninterp spec fn zone_localized(name: Seq<char>, secs: int, nanos: int) -> Option<(int, int)>;

/// The nanosecond timestamp that an RFC3339-like string denotes, or the
/// parser's message.
pub uninterp spec fn iso_timestamp_nanos(s: Seq<char>) -> Result<int, Seq<char>>;

/// An absolute or naive point in time: non-leap seconds since the Unix
/// epoch, plus the nanoseconds of the second (which may reach
/// 1_999_999_999 while a leap second is represented).
#[derive(Clone, Copy, Debug, PartialEq, Eq, Structural)]
pub struct Instant {
    pub secs: i64,
    pub nanos: u32,
}

impl Instant {
    /// Bounds every instant out of the date-time library satisfies: its
    /// documented date range spans years -262143 to 262142, well within
    /// ten trillion seconds of the epoch.
    pub open spec fn wf(self) -> bool {
        &&& -10_000_000_000_000 < self.secs < 10_000_000_000_000
        &&& self.nanos < 2_000_000_000
    }
}

/// A target timezone: UTC, or an IANA zone by name.
#[derive(Debug)]
pub enum Timezone {
    Utc,
    Named(String),
}

/// Mathematical model of a [`Timezone`].
pub enum TimezoneView {
    Utc,
    Named(Seq<char>),
}

impl View for Timezone {
    type V = TimezoneView;

    open spec fn view(&self) -> TimezoneView {
        match self {
            Timezone::Utc => TimezoneView::Utc,
            Timezone::Named(n) => TimezoneView::Named(n@),
        }
    }
}

impl Timezone {
    /// A named zone, validated against the IANA database; `None` for an
    /// unrecognized name.
    pub fn named(name: String) -> (r: Option<Timezone>)
        ensures
            match r {
                Some(t) => iana_zone(name@) && t@ == TimezoneView::Named(name@),
                None => !iana_zone(name@),
            },
    {
        if zone_exists(name.as_str()) {
            Some(Timezone::Named(name))
        } else {
            None
        }
    }
}

/// Relies on `chrono::format::parse` with `chrono::format::StrftimeItems`:
/// whether `s` matches the strftime pattern `format`, and the parser's
/// message when it does not, depend on the two strings alone.
#[verifier::external_body]
fn chrono_parse_error(s: &str, format: &str) -> (r: Option<String>)
    ensures
        match r {
            None => strftime_parse_error(s@, format@) is None,
            Some(m) => strftime_parse_error(s@, format@) == Some(m@),
        },
{
    let mut parsed = chrono::format::Parsed::new();
    match chrono::format::parse(&mut parsed, s, chrono::format::StrftimeItems::new(format)) {
        Ok(()) => None,
        Err(e) => Some(e.to_string()),
    }
}

/// Relies on `chrono::format::Parsed::to_datetime` after parsing `s`
/// against `format`, read out through `DateTime::timestamp` and
/// `DateTime::timestamp_subsec_nanos`: the zone-aware interpretation of
/// the parsed fields, a function of the two strings alone. The bounds
/// come from chrono's documented date range (years -262143 to 262142)
/// and from `timestamp_subsec_nanos`, below 2_000_000_000.
#[verifier::external_body]
fn chrono_zoned_instant(s: &str, format: &str) -> (r: Result<Instant, String>)
    ensures
        match r {
            Ok(inst) => strftime_zoned(s@, format@)
                == Ok::<(int, int), Seq<char>>((inst.secs as int, inst.nanos as int))
                && inst.wf(),
            Err(m) => strftime_zoned(s@, format@) == Err::<(int, int), Seq<char>>(m@),
        },
{
    let mut parsed = chrono::format::Parsed::new();
    if let Err(e) = chrono::format::parse(&mut parsed, s, chrono::format::StrftimeItems::new(format)) {
        return Err(e.to_string());
    }
    match parsed.to_datetime() {
        Ok(dt) => Ok(Instant { secs: dt.timestamp(), nanos: dt.timestamp_subsec_nanos() }),
        Err(e) => Err(e.to_string()),
    }
}

/// Relies on `chrono::format::Parsed::to_naive_datetime_with_offset` with
/// offset 0 after parsing `s` against `format`, read out through
/// `NaiveDateTime::and_utc` and the timestamp accessors: the naive
/// date-time interpretation, a function of the two strings alone. Bounds
/// as for the zone-aware reading.
#[verifier::external_body]
fn chrono_naive_instant(s: &str, format: &str) -> (r: Result<Instant, String>)
    ensures
        match r {
            Ok(inst) => strftime_naive_datetime(s@, format@)
                == Ok::<(int, int), Seq<char>>((inst.secs as int, inst.nanos as int))
                && inst.wf(),
            Err(m) => strftime_naive_datetime(s@, format@) == Err::<(int, int), Seq<char>>(m@),
        },
{
    let mut parsed = chrono::format::Parsed::new();
    if let Err(e) = chrono::format::parse(&mut parsed, s, chrono::format::StrftimeItems::new(format)) {
        return Err(e.to_string());
    }
    match parsed.to_naive_datetime_with_offset(0) {
        Ok(ndt) => {
            let dt = ndt.and_utc();
            Ok(Instant { secs: dt.timestamp(), nanos: dt.timestamp_subsec_nanos() })
        },
        Err(e) => Err(e.to_string()),
    }
}

/// Relies on `chrono::format::Parsed::to_naive_date` after parsing `s`
/// against `format`, widened to that date's midnight by chrono's
/// `NaiveDate` to `NaiveDateTime` conversion: the date-only
/// interpretation, a function of the two strings alone.
#[verifier::external_body]
fn chrono_date_instant(s: &str, format: &str) -> (r: Result<Instant, String>)
    ensures
        match r {
            Ok(inst) => strftime_naive_date(s@, format@) == Ok::<int, Seq<char>>(inst.secs as int)
                && inst.nanos == 0
                && inst.wf(),
            Err(m) => strftime_naive_date(s@, format@) == Err::<int, Seq<char>>(m@),
        },
{
    let mut parsed = chrono::format::Parsed::new();
    if let Err(e) = chrono::format::parse(&mut parsed, s, chrono::format::StrftimeItems::new(format)) {
        return Err(e.to_string());
    }
    match parsed.to_naive_date() {
        Ok(d) => {
            let dt = chrono::NaiveDateTime::from(d).and_utc();
            Ok(Instant { secs: dt.timestamp(), nanos: 0 })
        },
        Err(e) => Err(e.to_string()),
    }
}

/// Relies on `chrono_tz::Tz`'s `FromStr`: whether the name is in the
/// compiled IANA database.
#[verifier::external_body]
fn zone_exists(name: &str) -> (r: bool)
    ensures
        r == iana_zone(name@),
{
    name.parse::<chrono_tz::Tz>().is_ok()
}

/// Relies on `chrono::TimeZone::from_local_datetime` for `chrono_tz::Tz`
/// (the naive instant is rebuilt with `chrono::DateTime::from_timestamp`):
/// `Some` exactly when the zone maps the local time to a single absolute
/// instant; ambiguous, impossible, out-of-range and unrecognized-name
/// cases are all `None`. Deterministic in the three arguments, as the
/// zone database is compiled in.
#[verifier::external_body]
fn chrono_localize_named(name: &str, secs: i64, nanos: u32) -> (r: Option<Instant>)
    ensures
        match r {
            Some(inst) => zone_localized(name@, secs as int, nanos as int)
                == Some((inst.secs as int, inst.nanos as int))
                && inst.wf(),
            None => zone_localized(name@, secs as int, nanos as int) is None,
        },
{
    let tz: chrono_tz::Tz = match name.parse() {
        Ok(t) => t,
        Err(_) => return None,
    };
    let ndt = match chrono::DateTime::from_timestamp(secs, nanos) {
        Some(dt) => dt.naive_utc(),
        None => return None,
    };
    match tz.from_local_datetime(&ndt) {
        chrono::LocalResult::Single(dt) => {
            Some(Instant { secs: dt.timestamp(), nanos: dt.timestamp_subsec_nanos() })
        },
        chrono::LocalResult::Ambiguous(_, _) => None,
        chrono::LocalResult::None => None,
    }
}

/// Relies on `arrow::compute::kernels::cast_utils::string_to_timestamp_nanos`:
/// the nanosecond timestamp denoted by an RFC3339-like string, or the
/// error's message; a function of the string alone.
#[verifier::external_body]
fn arrow_timestamp_nanos(s: &str) -> (r: Result<i64, String>)
    ensures
        match r {
            Ok(v) => iso_timestamp_nanos(s@) == Ok::<int, Seq<char>>(v as int),
            Err(m) => iso_timestamp_nanos(s@) == Err::<int, Seq<char>>(m@),
        },
{
    arrow::compute::kernels::cast_utils::string_to_timestamp_nanos(s).map_err(|e| e.to_string())
}

/// Localizing a naive instant into UTC is the identity on the instant
/// (UTC has no transitions); a named zone follows [`zone_localized`].
pub open spec fn spec_localized(tz: TimezoneView, secs: int, nanos: int) -> Option<(int, int)> {
    match tz {
        TimezoneView::Utc => Some((secs, nanos)),
        TimezoneView::Named(n) => zone_localized(n, secs, nanos),
    }
}

/// The timezone-naive reading of `s` against `f`: a full naive
/// date-time, or, when the pattern only supplies a date, that date at
/// midnight.
pub open spec fn spec_naive_instant(s: Seq<char>, f: Seq<char>) -> Result<(int, int), Seq<char>> {
    match strftime_naive_datetime(s, f) {
        Ok(i) => Ok(i),
        Err(_) => match strftime_naive_date(s, f) {
            Ok(d) => Ok((d, 0)),
            Err(m) => Err(m),
        },
    }
}

/// The instant `s` denotes under pattern `f` in zone `tz`, or the cause
/// of failure: a failed pattern match is terminal; a zone-carrying
/// reading wins; otherwise the naive reading is localized, and an
/// ambiguous or impossible localization fails with the zone-aware
/// reading's message.
pub open spec fn spec_formatted_instant(tz: TimezoneView, s: Seq<char>, f: Seq<char>) -> Result<
    (int, int),
    Seq<char>,
> {
    match strftime_parse_error(s, f) {
        Some(m) => Err(m),
        None => match strftime_zoned(s, f) {
            Ok(i) => Ok(i),
            Err(zmsg) => match spec_naive_instant(s, f) {
                Err(nmsg) => Err(nmsg),
                Ok(ni) => match spec_localized(tz, ni.0, ni.1) {
                    Some(i) => Ok(i),
                    None => Err(zmsg),
                },
            },
        },
    }
}

fn parse_failure(s: &str, format: &str, cause: String) -> (r: KernelError)
    ensures
        r@ == (ErrView::ParseFailure { text: s@, format: Some(format@), cause: cause@ }),
{
    KernelError::ParseFailure {
        text: String::from_str(s),
        format: Some(String::from_str(format)),
        cause,
    }
}

/// Localize a naive instant into `tz`: `Some` exactly when one absolute
/// instant matches.
pub fn localize(tz: &Timezone, inst: &Instant) -> (r: Option<Instant>)
    requires
        inst.wf(),
    ensures
        match r {
            Some(o) => spec_localized(tz@, inst.secs as int, inst.nanos as int)
                == Some((o.secs as int, o.nanos as int))
                && o.wf(),
            None => spec_localized(tz@, inst.secs as int, inst.nanos as int) is None,
        },
{
    match tz {
        Timezone::Utc => Some(*inst),
        Timezone::Named(name) => chrono_localize_named(name.as_str(), inst.secs, inst.nanos),
    }
}

/// Parse `s` against the strftime pattern `format`, relative to `tz`.
///
/// First the string is read as a zone-carrying date-time; failing that,
/// as a naive date-time (or, for a date-only pattern, a date at
/// midnight), which is then localized into `tz`. A pattern mismatch, a
/// failed naive reading, and an ambiguous or impossible localization all
/// return a `ParseFailure` embedding the text, the pattern and the
/// underlying cause — never a default or guessed instant.
pub fn string_to_datetime_formatted(tz: &Timezone, s: &str, format: &str) -> (r: Result<
    Instant,
    KernelError,
>)
    ensures
        match r {
            Ok(inst) => spec_formatted_instant(tz@, s@, format@)
                == Ok::<(int, int), Seq<char>>((inst.secs as int, inst.nanos as int))
                && inst.wf(),
            Err(e) => match spec_formatted_instant(tz@, s@, format@) {
                Err(m) => e@ == (ErrView::ParseFailure {
                    text: s@,
                    format: Some(format@),
                    cause: m,
                }),
                Ok(_) => false,
            },
        },
{
    if let Some(cause) = chrono_parse_error(s, format) {
        return Err(parse_failure(s, format, cause));
    }
    match chrono_zoned_instant(s, format) {
        Ok(inst) => Ok(inst),
        Err(zoned_cause) => {
            let naive = match chrono_naive_instant(s, format) {
                Ok(inst) => inst,
                Err(_) => match chrono_date_instant(s, format) {
                    Ok(inst) => inst,
                    Err(cause) => {
                        return Err(parse_failure(s, format, cause));
                    },
                },
            };
            match localize(tz, &naive) {
                Some(inst) => Ok(inst),
                None => Err(parse_failure(s, format, zoned_cause)),
            }
        },
    }
}

/// Total nanoseconds since the epoch that an instant denotes.
pub open spec fn spec_total_nanos(secs: int, nanos: int) -> int {
    secs * 1_000_000_000 + nanos
}

/// Whether the instant fits a signed 64-bit nanosecond timestamp.
pub open spec fn nanos_representable(secs: int, nanos: int) -> bool {
    i64::MIN <= spec_total_nanos(secs, nanos) <= i64::MAX
}

/// Total milliseconds since the epoch that an instant denotes (floor).
pub open spec fn spec_total_millis(secs: int, nanos: int) -> int {
    secs * 1000 + nanos / 1_000_000
}

pub open spec fn nanos_range_message_spec() -> Seq<char> {
    "The dates that can be represented as nanoseconds have to be between 1677-09-21T00:12:44.0 and 2262-04-11T23:47:16.854775804"@
}

/// The constant message reported when a nanosecond conversion is asked
/// for an instant beyond the supported interval.
pub fn nanos_range_message() -> (r: String)
    ensures
        r@ == nanos_range_message_spec(),
{
    String::from_str(
        "The dates that can be represented as nanoseconds have to be between 1677-09-21T00:12:44.0 and 2262-04-11T23:47:16.854775804",
    )
}

/// Nanosecond-epoch truncation: `None` exactly when the instant falls
/// outside the window a signed 64-bit count can hold (about
/// 1677-09-21T00:12:43 to 2262-04-11T23:47:16 UTC).
pub fn instant_to_nanos(inst: &Instant) -> (r: Option<i64>)
    requires
        inst.wf(),
    ensures
        match r {
            Some(v) => nanos_representable(inst.secs as int, inst.nanos as int) && v as int
                == spec_total_nanos(inst.secs as int, inst.nanos as int),
            None => !nanos_representable(inst.secs as int, inst.nanos as int),
        },
{
    let total: i128 = (inst.secs as i128) * 1_000_000_000 + (inst.nanos as i128);
    if i64::MIN as i128 <= total && total <= i64::MAX as i128 {
        Some(total as i64)
    } else {
        None
    }
}

/// Millisecond-epoch truncation; every well-formed instant is
/// representable, so this has no range restriction.
pub fn instant_to_millis(inst: &Instant) -> (r: i64)
    requires
        inst.wf(),
    ensures
        r as int == spec_total_millis(inst.secs as int, inst.nanos as int),
{
    inst.secs * 1000 + (inst.nanos / 1_000_000) as i64
}

/// Parse `s` against `format` relative to UTC and truncate to a
/// nanosecond-precision timestamp; an instant outside the representable
/// window is a `RangeFailure` with the constant message.
pub fn string_to_timestamp_nanos_formatted(s: &str, format: &str) -> (r: Result<i64, KernelError>)
    ensures
        match spec_formatted_instant(TimezoneView::Utc, s@, format@) {
            Err(m) => r matches Err(e) && e@ == (ErrView::ParseFailure {
                text: s@,
                format: Some(format@),
                cause: m,
            }),
            Ok(i) => if nanos_representable(i.0, i.1) {
                r matches Ok(v) && v as int == spec_total_nanos(i.0, i.1)
            } else {
                r matches Err(e) && e@ == (ErrView::RangeFailure {
                    message: nanos_range_message_spec(),
                })
            },
        },
{
    let tz = Timezone::Utc;
    match string_to_datetime_formatted(&tz, s, format) {
        Err(e) => Err(e),
        Ok(inst) => match instant_to_nanos(&inst) {
            Some(v) => Ok(v),
            None => Err(KernelError::RangeFailure { message: nanos_range_message() }),
        },
    }
}

/// Parse `s` against `format` relative to UTC and truncate to a
/// millisecond-precision timestamp; no range restriction applies.
pub fn string_to_timestamp_millis_formatted(s: &str, format: &str) -> (r: Result<i64, KernelError>)
    ensures
        match spec_formatted_instant(TimezoneView::Utc, s@, format@) {
            Err(m) => r matches Err(e) && e@ == (ErrView::ParseFailure {
                text: s@,
                format: Some(format@),
                cause: m,
            }),
            Ok(i) => r matches Ok(v) && v as int == spec_total_millis(i.0, i.1),
        },
{
    let tz = Timezone::Utc;
    match string_to_datetime_formatted(&tz, s, format) {
        Err(e) => Err(e),
        Ok(inst) => Ok(instant_to_millis(&inst)),
    }
}

/// Parse an RFC3339-like string to a nanosecond timestamp, converting
/// the underlying parser's error into a `ParseFailure`.
pub fn string_to_timestamp_nanos_shim(s: &str) -> (r: Result<i64, KernelError>)
    ensures
        match r {
            Ok(v) => iso_timestamp_nanos(s@) == Ok::<int, Seq<char>>(v as int),
            Err(e) => iso_timestamp_nanos(s@) is Err && match iso_timestamp_nanos(s@) {
                Err(m) => e@ == (ErrView::ParseFailure { text: s@, format: None, cause: m }),
                Ok(_) => false,
            },
        },
{
    match arrow_timestamp_nanos(s) {
        Ok(v) => Ok(v),
        Err(cause) => Err(
            KernelError::ParseFailure { text: String::from_str(s), format: None, cause },
        ),
    }
}

} // verus!
