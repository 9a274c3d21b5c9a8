//! Caller-supplied row parsers: the traits the kernels are generic over,
//! and the temporal implementations this crate provides.
//!
//! Row parsers are pure and referentially transparent: each trait pairs
//! an executable method with a spec function giving its meaning, and the
//! method's contract ties the two together, so identical inputs always
//! produce identical outputs or identical failures.

use vstd::prelude::*;

use crate::errors::{ErrView, KernelError};
use crate::temporal::{
    iso_timestamp_nanos, nanos_range_message_spec, nanos_representable, spec_formatted_instant,
    spec_total_millis, spec_total_nanos, string_to_timestamp_millis_formatted,
    string_to_timestamp_nanos_formatted, string_to_timestamp_nanos_shim, TimezoneView,
};

verus! {

/// A pure single-argument row parser, turning one row's text into a
/// native numeric value or a failure.
pub trait RowParser {
    /// Mathematical meaning of [`Self::parse`].
    spec fn spec_parse(&self, s: Seq<char>) -> Result<i64, ErrView>;

    /// Parse one row's text; the result is exactly what
    /// [`Self::spec_parse`] says for this input.
    fn parse(&self, s: &str) -> (r: Result<i64, KernelError>)
        ensures
            match r {
                Ok(v) => self.spec_parse(s@) == Ok::<i64, ErrView>(v),
                Err(e) => self.spec_parse(s@) == Err::<i64, ErrView>(e@),
            },
    ;
}

/// A pure two-argument row parser for the fallback executor, together
/// with the post-transform applied to an accepted result.
pub trait FallbackParser {
    /// Mathematical meaning of [`Self::parse2`].
    spec fn spec_parse2(&self, primary: Seq<char>, candidate: Seq<char>) -> Result<i64, ErrView>;

    /// Mathematical meaning of [`Self::transform`].
    spec fn spec_transform(&self, v: i64) -> i64;

    /// Attempt one candidate against the primary text.
    fn parse2(&self, primary: &str, candidate: &str) -> (r: Result<i64, KernelError>)
        ensures
            match r {
                Ok(v) => self.spec_parse2(primary@, candidate@) == Ok::<i64, ErrView>(v),
                Err(e) => self.spec_parse2(primary@, candidate@) == Err::<i64, ErrView>(e@),
            },
    ;

    /// Post-transform, applied only to an accepted result.
    fn transform(&self, v: i64) -> (r: i64)
        ensures
            r == self.spec_transform(v),
    ;
}

/// Single-attempt parser: an RFC3339-like string to a nanosecond
/// timestamp.
pub struct IsoNanosParser;

impl RowParser for IsoNanosParser {
    open spec fn spec_parse(&self, s: Seq<char>) -> Result<i64, ErrView> {
        match iso_timestamp_nanos(s) {
            Ok(v) => Ok(v as i64),
            Err(m) => Err(ErrView::ParseFailure { text: s, format: None, cause: m }),
        }
    }

    fn parse(&self, s: &str) -> (r: Result<i64, KernelError>) {
        string_to_timestamp_nanos_shim(s)
    }
}

/// Fallback parser: the primary text against one strftime candidate
/// pattern, relative to UTC, as a nanosecond timestamp; the accepted
/// result is kept as is.
pub struct FormattedNanosParser;

impl FallbackParser for FormattedNanosParser {
    open spec fn spec_parse2(&self, primary: Seq<char>, candidate: Seq<char>) -> Result<
        i64,
        ErrView,
    > {
        match spec_formatted_instant(TimezoneView::Utc, primary, candidate) {
            Err(m) => Err(
                ErrView::ParseFailure { text: primary, format: Some(candidate), cause: m },
            ),
            Ok(i) => if nanos_representable(i.0, i.1) {
                Ok(spec_total_nanos(i.0, i.1) as i64)
            } else {
                Err(ErrView::RangeFailure { message: nanos_range_message_spec() })
            },
        }
    }

    open spec fn spec_transform(&self, v: i64) -> i64 {
        v
    }

    fn parse2(&self, primary: &str, candidate: &str) -> (r: Result<i64, KernelError>) {
        string_to_timestamp_nanos_formatted(primary, candidate)
    }

    fn transform(&self, v: i64) -> (r: i64) {
        v
    }
}

/// Fallback parser: the primary text against one strftime candidate
/// pattern, relative to UTC, as a millisecond timestamp.
pub struct FormattedMillisParser;

impl FallbackParser for FormattedMillisParser {
    open spec fn spec_parse2(&self, primary: Seq<char>, candidate: Seq<char>) -> Result<
        i64,
        ErrView,
    > {
        match spec_formatted_instant(TimezoneView::Utc, primary, candidate) {
            Err(m) => Err(
                ErrView::ParseFailure { text: primary, format: Some(candidate), cause: m },
            ),
            Ok(i) => Ok(spec_total_millis(i.0, i.1) as i64),
        }
    }

    open spec fn spec_transform(&self, v: i64) -> i64 {
        v
    }

    fn parse2(&self, primary: &str, candidate: &str) -> (r: Result<i64, KernelError>) {
        string_to_timestamp_millis_formatted(primary, candidate)
    }

    fn transform(&self, v: i64) -> (r: i64) {
        v
    }
}

/// Division toward zero by a nanosecond-per-second factor.
pub open spec fn spec_nanos_to_secs(n: int) -> int {
    if n >= 0 {
        n / 1_000_000_000
    } else {
        -((-n) / 1_000_000_000)
    }
}

/// Fallback parser: as [`FormattedNanosParser`], but the accepted
/// nanosecond result is scaled down to whole seconds (toward zero).
pub struct FormattedSecondsParser;

impl FallbackParser for FormattedSecondsParser {
    open spec fn spec_parse2(&self, primary: Seq<char>, candidate: Seq<char>) -> Result<
        i64,
        ErrView,
    > {
        match spec_formatted_instant(TimezoneView::Utc, primary, candidate) {
            Err(m) => Err(
                ErrView::ParseFailure { text: primary, format: Some(candidate), cause: m },
            ),
            Ok(i) => if nanos_representable(i.0, i.1) {
                Ok(spec_total_nanos(i.0, i.1) as i64)
            } else {
                Err(ErrView::RangeFailure { message: nanos_range_message_spec() })
            },
        }
    }

    open spec fn spec_transform(&self, v: i64) -> i64 {
        spec_nanos_to_secs(v as int) as i64
    }

    fn parse2(&self, primary: &str, candidate: &str) -> (r: Result<i64, KernelError>) {
        string_to_timestamp_nanos_formatted(primary, candidate)
    }

    fn transform(&self, v: i64) -> (r: i64) {
        if v >= 0 {
            let q: u64 = (v as u64) / 1_000_000_000;
            q as i64
        } else {
            let neg: u64 = (-(v as i128)) as u64;
            let q: u64 = neg / 1_000_000_000;
            assert(q * 1_000_000_000 <= neg) by {
                vstd::arithmetic::div_mod::lemma_fundamental_div_mod(neg as int, 1_000_000_000);
            };
            -(q as i64)
        }
    }
}

} // verus!
