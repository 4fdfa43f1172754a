//! What is taken on trust from chrono and humantime.
//!
//! Verus does not read the bodies below: it believes what each contract
//! says of the outside function that the body calls.

use vstd::prelude::*;
use crate::instant::{
    SignedSpan,
    Span,
    UtcInstant,
    elapsed_between,
    instant_plus,
    instant_view,
    max_added_nanos,
    round_trips,
    span_view,
    NANOS_PER_SEC,
};
use crate::time_utils::one_term;

verus! {

/// The instant, in UTC, that chrono reads from an RFC 3339 timestamp, or
/// `None` where it reads none.
pub uninterp spec fn rfc3339_instant(text: Seq<char>) -> Option<(int, int)>;

/// The RFC 3339 text that chrono writes for an instant in UTC.
pub uninterp spec fn rfc3339_text(t: (int, int)) -> Seq<char>;

/// The length in nanoseconds that humantime reads from a duration text,
/// or `None` where it reads none.
pub uninterp spec fn humantime_span(text: Seq<char>) -> Option<nat>;

/// The text that humantime writes for a span of `nanos` nanoseconds.
pub uninterp spec fn humantime_text(nanos: nat) -> Seq<char>;

/// `chrono::DateTime::parse_from_rfc3339`, the result moved to UTC.
///
/// Claims that the outcome depends on the text alone, and that an instant
/// read this way is one chrono can hold: within its range of years, and a
/// leap second only at the end of a minute.
#[verifier::external_body]
pub(crate) fn read_rfc3339(text: &str) -> (found: Option<UtcInstant>)
    ensures
        instant_view(found) == rfc3339_instant(text@),
{
    match chrono::DateTime::parse_from_rfc3339(text) {
        Ok(read) => {
            let utc = read.with_timezone(&chrono::Utc);
            Some(UtcInstant { secs: utc.timestamp(), nanos: utc.timestamp_subsec_nanos() })
        },
        Err(_) => None,
    }
}

/// `chrono::DateTime::to_rfc3339` on an instant in UTC.
///
/// Claims that the text depends on the instant alone, and that chrono reads
/// the same instant back from it when the year has four digits: what is
/// written then is date, time with as many digits of the fraction as it
/// needs, and the offset `+00:00`, which is what the reader takes.
#[verifier::external_body]
pub(crate) fn write_rfc3339(t: &UtcInstant) -> (text: String)
    ensures
        text@ == rfc3339_text(t@),
        round_trips(t@) ==> rfc3339_instant(text@) == Some(t@),
{
    chrono::DateTime::from_timestamp(t.secs, t.nanos).unwrap().to_rfc3339()
}

/// `chrono::Utc::now`.
///
/// Claims only that the clock's reading is an instant chrono can hold and
/// no leap second. Chrono gives no reading, and aborts, on a machine whose
/// clock is set before 1970.
#[verifier::external_body]
pub(crate) fn current_instant() -> (now: UtcInstant)
    ensures
        now@.1 < NANOS_PER_SEC,
{
    let now = chrono::Utc::now();
    UtcInstant { secs: now.timestamp(), nanos: now.timestamp_subsec_nanos() }
}

/// `chrono::DateTime::checked_add_signed`, with the span first made a
/// `TimeDelta` by `TimeDelta::from_std`.
///
/// Claims that the sum is `instant_plus`: plain addition, but for a start
/// within a leap second, and `None` exactly when the sum leaves chrono's
/// range.
#[verifier::external_body]
pub(crate) fn checked_add_signed(from: &UtcInstant, span: &Span) -> (sum: Option<UtcInstant>)
    requires
        span@ <= max_added_nanos(),
    ensures
        instant_view(sum) == instant_plus(from@, span@),
{
    let delta = chrono::TimeDelta::from_std(std::time::Duration::new(span.secs, span.nanos))
        .unwrap();
    let start = chrono::DateTime::from_timestamp(from.secs, from.nanos).unwrap();
    match start.checked_add_signed(delta) {
        Some(then) => Some(
            UtcInstant { secs: then.timestamp(), nanos: then.timestamp_subsec_nanos() },
        ),
        None => None,
    }
}

/// `chrono::DateTime::signed_duration_since`.
///
/// Claims that the difference is `elapsed_between`: the difference of the
/// seconds and of the nanoseconds, and one second more or less where the
/// earlier or the later instant is a leap second and the two times of day
/// lie on either side of it. The result is handed over as chrono's
/// `num_seconds` and `subsec_nanos`, which have the same sign.
#[verifier::external_body]
pub(crate) fn signed_duration_between(later: &UtcInstant, earlier: &UtcInstant) -> (span: SignedSpan)
    ensures
        span@ == elapsed_between(later@, earlier@),
{
    let end = chrono::DateTime::from_timestamp(later.secs, later.nanos).unwrap();
    let start = chrono::DateTime::from_timestamp(earlier.secs, earlier.nanos).unwrap();
    let delta = end.signed_duration_since(start);
    SignedSpan { secs: delta.num_seconds(), nanos: delta.subsec_nanos() }
}

/// `humantime::parse_duration`.
///
/// Claims that the outcome depends on the text alone. The text must be of
/// one term, with no digit behind a unit letter: humantime aborts where the
/// seconds it has summed over several terms are `u64::MAX` and a full second
/// of nanoseconds is left to carry, which one term alone cannot bring about.
#[verifier::external_body]
pub(crate) fn parse_duration(text: &str) -> (found: Option<Span>)
    requires
        one_term(text@),
    ensures
        span_view(found) == humantime_span(text@),
{
    match humantime::parse_duration(text) {
        Ok(read) => Some(Span { secs: read.as_secs(), nanos: read.subsec_nanos() }),
        Err(_) => None,
    }
}

/// `humantime::format_duration`, written out.
///
/// Claims that the text depends on the span alone.
#[verifier::external_body]
pub(crate) fn format_duration(span: &Span) -> (text: String)
    ensures
        text@ == humantime_text(span@),
{
    humantime::format_duration(std::time::Duration::new(span.secs, span.nanos)).to_string()
}

} // verus!
