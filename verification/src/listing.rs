//! Listing the stored reminders with the time each has left.

use vstd::prelude::*;
use vstd::string::*;
use crate::models::{Reminder, ReminderView};
use crate::instant::{UtcInstant, elapsed_between, magnitude};
use crate::outside::{humantime_text, rfc3339_instant};

verus! {

/// What is shown in place of advice where a reminder has none.
pub const NO_ADVICE: &'static str = "None";

/// What is shown where nothing is stored.
pub const NO_REMINDERS: &'static str = "No pending reminders";

/// One reminder as the list shows it.
#[derive(Debug, PartialEq, Eq)]
pub enum ListLine {
    /// A reminder with the time between now and its trigger time:
    /// `remaining` is the length of that time, and `overdue` says that the
    /// trigger time lies behind, so that the time left is negative.
    Entry { id: i64, message: String, overdue: bool, remaining: String, advice: String },
    /// A reminder whose stored time cannot be read; it is reported and
    /// otherwise left out.
    Unreadable { id: i64, trigger_time: String },
}

/// A line of the list in plain values.
pub enum ListLineView {
    Entry {
        id: int,
        message: Seq<char>,
        overdue: bool,
        remaining: Seq<char>,
        advice: Seq<char>,
    },
    Unreadable { id: int, trigger_time: Seq<char> },
}

impl View for ListLine {
    type V = ListLineView;

    open spec fn view(&self) -> ListLineView {
        match *self {
            ListLine::Entry { id, message, overdue, remaining, advice } => ListLineView::Entry {
                id: id as int,
                message: message@,
                overdue,
                remaining: remaining@,
                advice: advice@,
            },
            ListLine::Unreadable { id, trigger_time } => ListLineView::Unreadable {
                id: id as int,
                trigger_time: trigger_time@,
            },
        }
    }
}

/// The line for one reminder at the instant `now`. The time left is the
/// time from `now` to the stored trigger time, with its direction: for a
/// reminder that is overdue it is negative, and the line says so beside the
/// length of the delay.
pub open spec fn line_for(reminder: ReminderView, now: (int, int)) -> ListLineView {
    match rfc3339_instant(reminder.trigger_time) {
        Some(trigger) => ListLineView::Entry {
            id: reminder.id,
            message: reminder.message,
            overdue: elapsed_between(trigger, now) < 0,
            remaining: humantime_text(magnitude(elapsed_between(trigger, now))),
            advice: match reminder.ai_advice {
                Some(advice) => advice,
                None => NO_ADVICE@,
            },
        },
        None => ListLineView::Unreadable {
            id: reminder.id,
            trigger_time: reminder.trigger_time,
        },
    }
}

/// The line for one reminder at the instant `now`.
pub fn list_line(reminder: &Reminder, now: &UtcInstant) -> (line: ListLine)
    ensures
        line@ == line_for(reminder@, now@),
{
    match UtcInstant::parse_from_rfc3339(reminder.trigger_time.as_str()) {
        Some(trigger) => {
            let left = trigger.signed_duration_since(now);
            ListLine::Entry {
                id: reminder.id,
                message: reminder.message.clone(),
                overdue: left.is_negative(),
                remaining: left.abs().humanize(),
                advice: match &reminder.ai_advice {
                    Some(advice) => advice.clone(),
                    None => String::from_str(NO_ADVICE),
                },
            }
        },
        None => ListLine::Unreadable {
            id: reminder.id,
            trigger_time: reminder.trigger_time.clone(),
        },
    }
}

/// What is shown in place of a list: the notice that nothing is pending
/// where the store holds no reminder, and nothing where it holds any.
pub fn empty_notice(reminders: &Vec<Reminder>) -> (notice: Option<&'static str>)
    ensures
        reminders@.len() == 0 ==> notice == Some(NO_REMINDERS),
        reminders@.len() > 0 ==> notice is None,
{
    if reminders.len() == 0 {
        Some(NO_REMINDERS)
    } else {
        None
    }
}

/// The list at the instant `now`: one line for each reminder, in the order
/// in which the store handed them over. An empty store gives an empty list.
pub fn list_reminders(reminders: &Vec<Reminder>, now: &UtcInstant) -> (lines: Vec<ListLine>)
    ensures
        lines@.len() == reminders@.len(),
        forall|i: int|
            0 <= i < reminders@.len() ==> (#[trigger] lines@[i])@ == line_for(
                reminders@[i]@,
                now@,
            ),
{
    let mut lines: Vec<ListLine> = Vec::new();
    let mut at: usize = 0;
    while at < reminders.len()
        invariant
            at <= reminders.len(),
            lines@.len() == at,
            forall|i: int|
                0 <= i < at ==> (#[trigger] lines@[i])@ == line_for(reminders@[i]@, now@),
        decreases reminders.len() - at,
    {
        lines.push(list_line(&reminders[at], now));
        at = at + 1;
    }
    lines
}

} // verus!
