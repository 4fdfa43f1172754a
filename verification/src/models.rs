//! What the store keeps.

use vstd::prelude::*;

verus! {

/// One reminder as it is stored.
#[derive(Debug, PartialEq, Eq)]
pub struct Reminder {
    /// Given by the store when the reminder is created, and never reused.
    pub id: i64,
    /// What the user wants to be reminded of.
    pub message: String,
    /// When to remind, in RFC 3339.
    pub trigger_time: String,
    /// What the advice service said, if it said anything.
    pub ai_advice: Option<String>,
}

/// A stored reminder in plain values.
pub struct ReminderView {
    pub id: int,
    pub message: Seq<char>,
    pub trigger_time: Seq<char>,
    pub ai_advice: Option<Seq<char>>,
}

impl View for Reminder {
    type V = ReminderView;

    open spec fn view(&self) -> ReminderView {
        ReminderView {
            id: self.id as int,
            message: self.message@,
            trigger_time: self.trigger_time@,
            ai_advice: match self.ai_advice {
                Some(advice) => Some(advice@),
                None => None,
            },
        }
    }
}

} // verus!
