//! Reading a time expression: `+` and a duration, or an RFC 3339 timestamp.

use vstd::prelude::*;
use vstd::string::*;
use crate::instant::{
    Span,
    UtcInstant,
    instant_plus,
    lemma_plus_is_exact,
    max_added_nanos,
    nanos_since_epoch,
    span_view,
    valid_instant,
    NANOS_PER_SEC,
};
use crate::outside::{
    checked_add_signed,
    humantime_span,
    parse_duration,
    read_rfc3339,
    rfc3339_instant,
};

verus! {

broadcast use vstd::string::group_string_axioms;

/// Why a time expression was not understood.
#[derive(Debug, Clone, Copy, PartialEq, Eq, Structural)]
pub enum TimeParseError {
    /// What follows the `+` is no duration that can be added to the
    /// current instant.
    InvalidDuration,
    /// The text is no RFC 3339 timestamp.
    InvalidTimestamp,
}

impl TimeParseError {
    /// The sentence shown to the user.
    pub fn message(&self) -> (text: String)
        ensures
            *self == TimeParseError::InvalidDuration ==> text@
                == "invalid duration: expected something like +30m or +1h 15m"@,
            *self == TimeParseError::InvalidTimestamp ==> text@
                == "invalid timestamp: expected RFC 3339, such as 2025-01-01T12:00:00Z"@,
    {
        match self {
            TimeParseError::InvalidDuration => String::from_str(
                "invalid duration: expected something like +30m or +1h 15m",
            ),
            TimeParseError::InvalidTimestamp => String::from_str(
                "invalid timestamp: expected RFC 3339, such as 2025-01-01T12:00:00Z",
            ),
        }
    }
}

/// Whether `c` is one of `0` to `9`.
pub open spec fn is_decimal_digit(c: char) -> bool {
    '0' <= c <= '9'
}

/// Whether `c` is a letter that units are written with.
pub open spec fn is_unit_letter(c: char) -> bool {
    'a' <= c <= 'z' || 'A' <= c <= 'Z' || c == '\u{b5}'
}

/// Whether `text` holds one term of a duration at most: a number and its
/// unit, with no further number behind the unit.
pub open spec fn one_term(text: Seq<char>) -> bool {
    forall|i: int, j: int|
        0 <= i < j < text.len() && is_unit_letter(#[trigger] text[i]) ==> !is_decimal_digit(
            #[trigger] text[j],
        )
}

/// Where the term ends that position `at` of `text` lies in: before the
/// first digit behind a unit letter, or at the end of the text.
/// `after_letter` says whether the term has a unit letter before `at`.
pub open spec fn term_end_from(text: Seq<char>, at: int, after_letter: bool) -> int
    decreases text.len() - at,
{
    if at < 0 || at >= text.len() {
        text.len() as int
    } else if after_letter && is_decimal_digit(text[at]) {
        at
    } else {
        term_end_from(text, at + 1, after_letter || is_unit_letter(text[at]))
    }
}

/// Where the first term of `text` ends.
pub open spec fn first_term_end(text: Seq<char>) -> int {
    term_end_from(text, 0, false)
}

/// The length in nanoseconds that a duration text stands for: the sum of
/// its terms, each as humantime reads it, as in `1h 30m` or `2days4h`.
/// `None` where humantime reads no duration from one of the terms. A bare
/// `0` is a duration only where it is the whole text.
pub open spec fn duration_of(text: Seq<char>) -> Option<nat>
    decreases text.len(),
{
    let end = first_term_end(text);
    match humantime_span(text.take(end)) {
        None => None,
        Some(first) => if 0 < end < text.len() {
            let rest = text.skip(end);
            if rest.len() == 1 && rest[0] == '0' {
                None
            } else {
                match duration_of(rest) {
                    Some(more) => Some(first + more),
                    None => None,
                }
            }
        } else {
            Some(first)
        },
    }
}

/// `sofar` and `more` nanoseconds together, where there are `more` and
/// chrono can add that much to an instant.
pub open spec fn joined(sofar: nat, more: Option<nat>) -> Option<nat> {
    match more {
        Some(more) if sofar + more <= max_added_nanos() => Some(sofar + more),
        _ => None,
    }
}

/// The length that a duration text stands for, where chrono can add that
/// much to an instant.
pub open spec fn addable_duration(text: Seq<char>) -> Option<nat> {
    joined(0, duration_of(text))
}

/// Reads one term and adds it to what came before.
fn add_term(sofar: &Span, term: &str) -> (sum: Option<Span>)
    requires
        one_term(term@),
        sofar@ <= max_added_nanos(),
    ensures
        span_view(sum) == joined(sofar@, humantime_span(term@)),
{
    match parse_duration(term) {
        None => None,
        Some(length) => match sofar.checked_add(&length) {
            None => None,
            Some(sum) => if sum.can_be_added() {
                Some(sum)
            } else {
                None
            },
        },
    }
}

/// Reads a duration text, term by term.
///
/// Each term is handed to humantime by itself and the lengths are added up
/// here. Handed a text of several terms, humantime aborts where its own sum
/// of seconds is `u64::MAX` with a second of nanoseconds to carry; handed
/// one term, it cannot.
pub fn read_duration(text: &str) -> (found: Option<Span>)
    ensures
        span_view(found) == addable_duration(text@),
{
    let len: usize = text.unicode_len();
    let mut sofar = Span::zero();
    let mut start: usize = 0;
    let mut pos: usize = 0;
    let mut after_letter = false;
    proof {
        assert(text@.skip(0) == text@);
    }
    for c in it: text.chars()
        invariant
            it.seq() == text@,
            len == text@.len(),
            pos == it.index(),
            start <= pos <= len,
            after_letter ==> start < pos,
            sofar@ <= max_added_nanos(),
            addable_duration(text@) == joined(sofar@, duration_of(text@.skip(start as int))),
            term_end_from(text@.skip(start as int), pos - start, after_letter) == first_term_end(
                text@.skip(start as int),
            ),
            !after_letter ==> forall|i: int| start <= i < pos ==> !is_unit_letter(text@[i]),
            forall|i: int, j: int|
                start <= i < j < pos && is_unit_letter(#[trigger] text@[i]) ==> !is_decimal_digit(
                    #[trigger] text@[j],
                ),
    {
        proof {
            assert(text@[pos as int] == c);
            assert(text@.skip(start as int)[pos - start] == c);
        }
        if after_letter && '0' <= c && c <= '9' {
            let term = text.substring_char(start, pos);
            proof {
                let tail = text@.skip(start as int);
                assert(first_term_end(tail) == pos - start);
                assert(tail.take(pos - start) == term@);
                assert(tail.skip(pos - start) == text@.skip(pos as int));
                assert(text@.skip(pos as int).len() == len - pos);
                assert(text@.skip(pos as int)[0] == c);
                assert forall|i: int, j: int|
                    0 <= i < j < term@.len() && is_unit_letter(
                        #[trigger] term@[i],
                    ) implies !is_decimal_digit(#[trigger] term@[j]) by {
                    assert(term@[i] == text@[start + i]);
                    assert(term@[j] == text@[start + j]);
                }
            }
            if pos + 1 == len && c == '0' {
                return None;
            }
            match add_term(&sofar, term) {
                None => {
                    return None;
                },
                Some(sum) => {
                    sofar = sum;
                },
            }
            start = pos;
            after_letter = false;
        }
        if ('a' <= c && c <= 'z') || ('A' <= c && c <= 'Z') || c == '\u{b5}' {
            after_letter = true;
        }
        pos = pos + 1;
    }
    let term = text.substring_char(start, len);
    proof {
        let tail = text@.skip(start as int);
        assert(first_term_end(tail) == tail.len());
        assert(tail.take(tail.len() as int) == tail);
        assert(term@ == tail);
        assert forall|i: int, j: int|
            0 <= i < j < term@.len() && is_unit_letter(#[trigger] term@[i]) implies !is_decimal_digit(
            #[trigger] term@[j],
        ) by {
            assert(term@[i] == text@[start + i]);
            assert(term@[j] == text@[start + j]);
        }
    }
    add_term(&sofar, term)
}

/// What a time expression means at the instant `now`: after a leading `+`
/// the instant that lies the duration that follows after `now`, otherwise
/// what it says as an RFC 3339 timestamp.
pub open spec fn parse_outcome(input: Seq<char>, now: (int, int)) -> Result<
    (int, int),
    TimeParseError,
> {
    if input.len() > 0 && input[0] == '+' {
        match addable_duration(input.subrange(1, input.len() as int)) {
            Some(span) => match instant_plus(now, span) {
                Some(then) => Ok(then),
                None => Err(TimeParseError::InvalidDuration),
            },
            None => Err(TimeParseError::InvalidDuration),
        }
    } else {
        match rfc3339_instant(input) {
            Some(then) => Ok(then),
            None => Err(TimeParseError::InvalidTimestamp),
        }
    }
}

/// The view of a parse result.
pub open spec fn outcome_view(result: Result<UtcInstant, TimeParseError>) -> Result<
    (int, int),
    TimeParseError,
> {
    match result {
        Ok(t) => Ok(t@),
        Err(e) => Err(e),
    }
}

/// Reads a time expression as of the instant `now`.
///
/// `+` followed by a duration such as `1h` or `1h 30m` gives `now` plus
/// that duration; anything else must be an RFC 3339 timestamp and gives
/// that instant in UTC.
pub fn parse_at(input: &str, now: &UtcInstant) -> (result: Result<UtcInstant, TimeParseError>)
    ensures
        outcome_view(result) == parse_outcome(input@, now@),
{
    let len: usize = input.unicode_len();
    if len > 0 && input.get_char(0) == '+' {
        match read_duration(input.substring_char(1, len)) {
            Some(span) => match checked_add_signed(now, &span) {
                Some(then) => Ok(then),
                None => Err(TimeParseError::InvalidDuration),
            },
            None => Err(TimeParseError::InvalidDuration),
        }
    } else {
        match read_rfc3339(input) {
            Some(then) => Ok(then),
            None => Err(TimeParseError::InvalidTimestamp),
        }
    }
}

/// Reads a time expression as of the current instant.
///
/// For a timestamp the clock plays no part. For a duration the result is
/// what `parse_at` gives at some instant that is no leap second: the one
/// the clock showed during the call.
pub fn parse(input: &str) -> (result: Result<UtcInstant, TimeParseError>)
    ensures
        !(input@.len() > 0 && input@[0] == '+') ==> outcome_view(result) == match rfc3339_instant(
            input@,
        ) {
            Some(then) => Ok::<(int, int), TimeParseError>(then),
            None => Err::<(int, int), TimeParseError>(TimeParseError::InvalidTimestamp),
        },
        exists|now: (int, int)|
            valid_instant(now) && now.1 < NANOS_PER_SEC && outcome_view(result)
                == #[trigger] parse_outcome(input@, now),
{
    let now = UtcInstant::now();
    let result = parse_at(input, &now);
    proof {
        assert(outcome_view(result) == parse_outcome(input@, now@));
    }
    result
}

/// A time expression that starts with `+` means the current instant plus
/// the duration that follows, to the nanosecond.
pub proof fn lemma_duration_is_added(input: Seq<char>, now: (int, int))
    requires
        valid_instant(now),
        now.1 < NANOS_PER_SEC,
        input.len() > 0 && input[0] == '+',
        parse_outcome(input, now) is Ok,
    ensures
        ({
            let rest = input.subrange(1, input.len() as int);
            let then = parse_outcome(input, now)->Ok_0;
            &&& duration_of(rest) is Some
            &&& nanos_since_epoch(then) == nanos_since_epoch(now) + duration_of(rest)->Some_0
        }),
{
    let rest = input.subrange(1, input.len() as int);
    lemma_plus_is_exact(now, duration_of(rest)->Some_0);
}

/// Every duration that chrono can add to `now` is read: where the text
/// after `+` stands for a duration and the instant that much after `now`
/// is one chrono can hold, the result is that instant.
pub proof fn lemma_every_addable_duration_is_read(input: Seq<char>, now: (int, int))
    requires
        input.len() > 0 && input[0] == '+',
        duration_of(input.subrange(1, input.len() as int)) matches Some(span) && span
            <= max_added_nanos() && instant_plus(now, span) is Some,
    ensures
        parse_outcome(input, now) == Ok::<(int, int), TimeParseError>(
            instant_plus(
                now,
                duration_of(input.subrange(1, input.len() as int))->Some_0,
            )->Some_0,
        ),
{
}

/// A text of one term stands for what humantime reads from it.
pub proof fn lemma_one_term_is_humantimes(text: Seq<char>)
    requires
        one_term(text),
    ensures
        duration_of(text) == humantime_span(text),
{
    lemma_term_end_of_one_term(text, 0, false);
    assert(text.take(text.len() as int) == text);
}

/// In a text of one term no term ends before the text does.
proof fn lemma_term_end_of_one_term(text: Seq<char>, at: int, after_letter: bool)
    requires
        one_term(text),
        0 <= at <= text.len(),
        after_letter ==> exists|i: int| 0 <= i < at && is_unit_letter(text[i]),
    ensures
        term_end_from(text, at, after_letter) == text.len(),
    decreases text.len() - at,
{
    if at < text.len() {
        if after_letter {
            let i = choose|i: int| 0 <= i < at && is_unit_letter(text[i]);
            assert(is_unit_letter(text[i]) ==> !is_decimal_digit(text[at]));
        }
        if is_unit_letter(text[at]) {
            assert(0 <= at < at + 1 && is_unit_letter(text[at]));
        }
        lemma_term_end_of_one_term(text, at + 1, after_letter || is_unit_letter(text[at]));
    }
}

/// A time expression without a leading `+` means what it says as an RFC
/// 3339 timestamp, whatever the clock shows, and nothing if it is none.
pub proof fn lemma_timestamp_is_taken(input: Seq<char>, now: (int, int))
    requires
        !(input.len() > 0 && input[0] == '+'),
    ensures
        rfc3339_instant(input) matches Some(then) ==> parse_outcome(input, now) == Ok::<
            (int, int),
            TimeParseError,
        >(then),
        rfc3339_instant(input) is None ==> parse_outcome(input, now) == Err::<
            (int, int),
            TimeParseError,
        >(TimeParseError::InvalidTimestamp),
{
}

} // verus!
