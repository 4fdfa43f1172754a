//! Instants and spans of time.
//!
//! An instant is held as chrono holds one: whole seconds since the Unix
//! epoch and nanoseconds within the second, where a nanosecond count of a
//! billion or more stands for a leap second. Reading and writing text, the
//! clock, and sums and differences of instants are chrono's and humantime's;
//! this module says of each what it gives.

use vstd::prelude::*;
use crate::outside::{
    checked_add_signed,
    current_instant,
    format_duration,
    humantime_text,
    read_rfc3339,
    rfc3339_instant,
    rfc3339_text,
    signed_duration_between,
    write_rfc3339,
};

verus! {

/// Nanoseconds in one second.
pub const NANOS_PER_SEC: u32 = 1_000_000_000;

/// Seconds in one day.
pub const SECS_PER_DAY: i64 = 86_400;

/// Timestamp of the first second chrono can hold (start of the year -262143).
pub const MIN_TIMESTAMP: i64 = -8_334_601_228_800;

/// Timestamp of the last second chrono can hold (end of the year 262142).
pub const MAX_TIMESTAMP: i64 = 8_210_266_876_799;

/// Whole seconds of the longest span chrono adds to an instant.
pub const MAX_ADDED_SECS: u64 = 9_223_372_036_854_775;

/// Nanoseconds beyond `MAX_ADDED_SECS` of that longest span.
pub const MAX_ADDED_NANOS: u32 = 807_000_000;

/// Whether `(seconds, nanoseconds)` is an instant that chrono can hold.
pub open spec fn valid_instant(v: (int, int)) -> bool {
    &&& MIN_TIMESTAMP <= v.0 <= MAX_TIMESTAMP
    &&& 0 <= v.1 < 2 * NANOS_PER_SEC
    &&& v.1 >= NANOS_PER_SEC ==> v.0 % 60 == 59
}

/// A point in time, in UTC.
#[derive(Debug, Clone, Copy, PartialEq, Eq, Structural)]
pub struct UtcInstant {
    pub(crate) secs: i64,
    pub(crate) nanos: u32,
}

impl View for UtcInstant {
    type V = (int, int);

    /// Seconds since the Unix epoch, and nanoseconds within that second.
    closed spec fn view(&self) -> (int, int) {
        (self.secs as int, self.nanos as int)
    }
}

impl UtcInstant {
    #[verifier::type_invariant]
    spec fn inv(self) -> bool {
        valid_instant(self@)
    }

    /// The instant `nanos` nanoseconds after second `secs` of the Unix era,
    /// if chrono can hold it.
    pub fn from_timestamp(secs: i64, nanos: u32) -> (made: Option<UtcInstant>)
        ensures
            made is Some <==> valid_instant((secs as int, nanos as int)),
            made matches Some(t) ==> t@ == (secs as int, nanos as int),
    {
        if secs < MIN_TIMESTAMP || secs > MAX_TIMESTAMP || nanos >= 2 * NANOS_PER_SEC {
            return None;
        }
        if nanos >= NANOS_PER_SEC && secs.checked_rem_euclid(60) != Some(59) {
            return None;
        }
        Some(UtcInstant { secs, nanos })
    }

    /// Whole seconds since the Unix epoch.
    pub fn timestamp(&self) -> (secs: i64)
        ensures
            secs == self@.0,
            valid_instant(self@),
    {
        proof {
            use_type_invariant(self);
        }
        self.secs
    }

    /// Nanoseconds within the second; a billion or more during a leap second.
    pub fn subsec_nanos(&self) -> (nanos: u32)
        ensures
            nanos == self@.1,
            valid_instant(self@),
    {
        proof {
            use_type_invariant(self);
        }
        self.nanos
    }
}

/// The views of an optional instant.
pub open spec fn instant_view(found: Option<UtcInstant>) -> Option<(int, int)> {
    match found {
        Some(t) => Some(t@),
        None => None,
    }
}

/// A length of time that is not negative, to the nanosecond.
#[derive(Debug, Clone, Copy, PartialEq, Eq, Structural)]
pub struct Span {
    pub(crate) secs: u64,
    pub(crate) nanos: u32,
}

impl View for Span {
    type V = nat;

    /// The length in nanoseconds.
    closed spec fn view(&self) -> nat {
        (self.secs * NANOS_PER_SEC + self.nanos) as nat
    }
}

impl Span {
    #[verifier::type_invariant]
    spec fn inv(self) -> bool {
        self.nanos < NANOS_PER_SEC
    }

    /// The span of `secs` seconds and `nanos` nanoseconds, where `nanos` is
    /// less than a second.
    pub fn new(secs: u64, nanos: u32) -> (made: Option<Span>)
        ensures
            made is Some <==> nanos < NANOS_PER_SEC,
            made matches Some(d) ==> d@ == secs * NANOS_PER_SEC + nanos,
    {
        if nanos < NANOS_PER_SEC {
            Some(Span { secs, nanos })
        } else {
            None
        }
    }

    /// The empty span.
    pub fn zero() -> (made: Span)
        ensures
            made@ == 0,
    {
        Span { secs: 0, nanos: 0 }
    }

    /// Whether the span is empty.
    pub fn is_zero(&self) -> (empty: bool)
        ensures
            empty == (self@ == 0),
    {
        self.secs == 0 && self.nanos == 0
    }

    /// Whole seconds in the span.
    pub fn as_secs(&self) -> (secs: u64)
        ensures
            secs == self@ / (NANOS_PER_SEC as nat),
    {
        proof {
            use_type_invariant(self);
        }
        self.secs
    }

    /// Nanoseconds beyond the whole seconds.
    pub fn subsec_nanos(&self) -> (nanos: u32)
        ensures
            nanos == self@ % (NANOS_PER_SEC as nat),
    {
        proof {
            use_type_invariant(self);
        }
        self.nanos
    }

    /// The two spans one after the other, unless their seconds no longer
    /// fit.
    pub fn checked_add(&self, other: &Span) -> (sum: Option<Span>)
        ensures
            sum is Some <==> (self@ + other@) / (NANOS_PER_SEC as nat) <= u64::MAX,
            sum matches Some(both) ==> both@ == self@ + other@,
    {
        proof {
            use_type_invariant(self);
            use_type_invariant(other);
        }
        let nanos: u32 = self.nanos + other.nanos;
        match self.secs.checked_add(other.secs) {
            None => None,
            Some(secs) => if nanos < NANOS_PER_SEC {
                Some(Span { secs, nanos })
            } else {
                match secs.checked_add(1) {
                    None => None,
                    Some(carried) => Some(Span { secs: carried, nanos: nanos - NANOS_PER_SEC }),
                }
            },
        }
    }

    /// Whether chrono can add this span to an instant: it takes at most
    /// `i64::MAX` milliseconds.
    pub fn can_be_added(&self) -> (fits: bool)
        ensures
            fits == (self@ <= max_added_nanos()),
    {
        proof {
            use_type_invariant(self);
        }
        self.secs < MAX_ADDED_SECS || (self.secs == MAX_ADDED_SECS && self.nanos
            <= MAX_ADDED_NANOS)
    }
}

/// The longest span, in nanoseconds, that can be added to an instant.
pub open spec fn max_added_nanos() -> nat {
    (MAX_ADDED_SECS * NANOS_PER_SEC + MAX_ADDED_NANOS) as nat
}

/// The lengths of an optional span.
pub open spec fn span_view(found: Option<Span>) -> Option<nat> {
    match found {
        Some(d) => Some(d@),
        None => None,
    }
}

/// The whole seconds in `nanos` nanoseconds, rounded towards zero.
pub open spec fn whole_seconds(nanos: int) -> int {
    if nanos >= 0 {
        nanos / (NANOS_PER_SEC as int)
    } else {
        -((-nanos) / (NANOS_PER_SEC as int))
    }
}

/// A number of nanoseconds without its sign.
pub open spec fn magnitude(nanos: int) -> nat {
    if nanos < 0 {
        (-nanos) as nat
    } else {
        nanos as nat
    }
}

/// A length of time with a direction: positive when the first of two
/// instants comes after the second.
#[derive(Debug, Clone, Copy, PartialEq, Eq, Structural)]
pub struct SignedSpan {
    pub(crate) secs: i64,
    pub(crate) nanos: i32,
}

impl View for SignedSpan {
    type V = int;

    /// The length in nanoseconds.
    closed spec fn view(&self) -> int {
        self.secs * NANOS_PER_SEC + self.nanos
    }
}

impl SignedSpan {
    #[verifier::type_invariant]
    spec fn inv(self) -> bool {
        &&& -NANOS_PER_SEC < self.nanos < NANOS_PER_SEC
        &&& self.secs > 0 ==> self.nanos >= 0
        &&& self.secs < 0 ==> self.nanos <= 0
    }

    /// The span of `secs` seconds and `nanos` nanoseconds, where `nanos` is
    /// less than a second either way and does not point against `secs`.
    pub fn new(secs: i64, nanos: i32) -> (made: Option<SignedSpan>)
        ensures
            made is Some <==> {
                &&& -NANOS_PER_SEC < nanos < NANOS_PER_SEC
                &&& secs > 0 ==> nanos >= 0
                &&& secs < 0 ==> nanos <= 0
            },
            made matches Some(d) ==> d@ == secs * NANOS_PER_SEC + nanos,
    {
        if nanos <= -1_000_000_000 || nanos >= 1_000_000_000 {
            return None;
        }
        if (secs > 0 && nanos < 0) || (secs < 0 && nanos > 0) {
            return None;
        }
        Some(SignedSpan { secs, nanos })
    }

    /// Whole seconds in the span, rounded towards zero.
    pub fn num_seconds(&self) -> (secs: i64)
        ensures
            secs == whole_seconds(self@),
    {
        proof {
            use_type_invariant(self);
        }
        self.secs
    }

    /// What is left beyond the whole seconds, in nanoseconds; negative in a
    /// negative span.
    pub fn subsec_nanos(&self) -> (nanos: i32)
        ensures
            nanos == self@ - whole_seconds(self@) * NANOS_PER_SEC,
    {
        proof {
            use_type_invariant(self);
        }
        self.nanos
    }

    /// Whether the span is negative.
    pub fn is_negative(&self) -> (negative: bool)
        ensures
            negative == (self@ < 0),
    {
        proof {
            use_type_invariant(self);
        }
        self.secs < 0 || self.nanos < 0
    }

    /// The length of the span without its direction.
    pub fn abs(&self) -> (length: Span)
        ensures
            length@ == magnitude(self@),
    {
        proof {
            use_type_invariant(self);
        }
        if self.secs < 0 {
            let whole: u64 = (-(self.secs + 1)) as u64 + 1;
            Span { secs: whole, nanos: (-self.nanos) as u32 }
        } else if self.nanos < 0 {
            Span { secs: 0, nanos: (-self.nanos) as u32 }
        } else {
            Span { secs: self.secs as u64, nanos: self.nanos as u32 }
        }
    }

    /// The same length as a `Span`, unless it is negative.
    pub fn to_std(&self) -> (made: Option<Span>)
        ensures
            made is Some <==> self@ >= 0,
            made matches Some(d) ==> d@ == self@,
    {
        proof {
            use_type_invariant(self);
        }
        if self.secs < 0 || self.nanos < 0 {
            None
        } else {
            Some(Span { secs: self.secs as u64, nanos: self.nanos as u32 })
        }
    }
}

/// The instant that results when chrono adds `span` nanoseconds to the
/// instant `from`, or `None` when that instant lies beyond what chrono can
/// hold. Within a leap second a span of less than what is left of it stays
/// within it; any longer span counts from the second before.
pub open spec fn instant_plus(from: (int, int), span: nat) -> Option<(int, int)> {
    let whole = (span / (NANOS_PER_SEC as nat)) as int;
    let part = (span % (NANOS_PER_SEC as nat)) as int;
    if from.1 >= NANOS_PER_SEC && whole == 0 && from.1 + part < 2 * NANOS_PER_SEC {
        Some((from.0, from.1 + part))
    } else {
        let base = if from.1 >= NANOS_PER_SEC {
            from.1 - NANOS_PER_SEC
        } else {
            from.1
        };
        let moved = if base + part >= NANOS_PER_SEC {
            (from.0 + whole + 1, base + part - NANOS_PER_SEC)
        } else {
            (from.0 + whole, base + part)
        };
        if MIN_TIMESTAMP <= moved.0 <= MAX_TIMESTAMP {
            Some(moved)
        } else {
            None
        }
    }
}

/// The nanoseconds from `earlier` to `later` as chrono counts them: the
/// difference of the two readings, with one second more or less where a leap
/// second lies between two times of day.
pub open spec fn elapsed_between(later: (int, int), earlier: (int, int)) -> int {
    let later_in_day = later.0 % (SECS_PER_DAY as int);
    let earlier_in_day = earlier.0 % (SECS_PER_DAY as int);
    let leap = if later_in_day > earlier_in_day && earlier.1 >= NANOS_PER_SEC {
        1int
    } else if later_in_day < earlier_in_day && later.1 >= NANOS_PER_SEC {
        -1int
    } else {
        0int
    };
    (later.0 - earlier.0 + leap) * NANOS_PER_SEC + (later.1 - earlier.1)
}

/// How long it is from `now` until `then`, in nanoseconds: nothing when
/// `then` has come or passed.
pub open spec fn nanos_until(then: (int, int), now: (int, int)) -> nat {
    if elapsed_between(then, now) > 0 {
        elapsed_between(then, now) as nat
    } else {
        0
    }
}

/// Whether an instant lies in the years 0 to 9999, which RFC 3339 can write
/// with four digits.
pub open spec fn round_trips(t: (int, int)) -> bool {
    -62_167_219_200 <= t.0 <= 253_402_300_799
}

/// The nanoseconds from the Unix epoch to an instant that is no leap second.
pub open spec fn nanos_since_epoch(t: (int, int)) -> int {
    t.0 * NANOS_PER_SEC + t.1
}

/// Counted from an instant that is no leap second, a span leads to the
/// instant exactly that many nanoseconds later, which is no leap second
/// either, and the time between the two is the span.
pub proof fn lemma_plus_is_exact(from: (int, int), span: nat)
    requires
        valid_instant(from),
        from.1 < NANOS_PER_SEC,
        instant_plus(from, span) is Some,
    ensures
        ({
            let then = instant_plus(from, span)->Some_0;
            &&& valid_instant(then)
            &&& then.1 < NANOS_PER_SEC
            &&& nanos_since_epoch(then) == nanos_since_epoch(from) + span
            &&& elapsed_between(then, from) == span
            &&& nanos_until(then, from) == span
        }),
{
}

impl UtcInstant {
    /// What the clock shows.
    pub fn now() -> (now: UtcInstant)
        ensures
            valid_instant(now@),
            now@.1 < NANOS_PER_SEC,
    {
        let now = current_instant();
        proof {
            use_type_invariant(&now);
        }
        now
    }

    /// The instant that an RFC 3339 timestamp names, in UTC.
    pub fn parse_from_rfc3339(text: &str) -> (found: Option<UtcInstant>)
        ensures
            instant_view(found) == rfc3339_instant(text@),
    {
        read_rfc3339(text)
    }

    /// This instant in RFC 3339, as chrono writes it.
    pub fn to_rfc3339(&self) -> (text: String)
        ensures
            text@ == rfc3339_text(self@),
            round_trips(self@) ==> rfc3339_instant(text@) == Some(self@),
    {
        write_rfc3339(self)
    }

    /// The time from `earlier` to this instant; negative when this instant
    /// comes first.
    pub fn signed_duration_since(&self, earlier: &UtcInstant) -> (span: SignedSpan)
        ensures
            span@ == elapsed_between(self@, earlier@),
    {
        signed_duration_between(self, earlier)
    }
}

impl Span {
    /// The span as humantime writes it, such as `2h 37m`.
    pub fn humanize(&self) -> (text: String)
        ensures
            text@ == humantime_text(self@),
    {
        format_duration(self)
    }
}

} // verus!
