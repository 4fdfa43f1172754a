//! Firing a reminder: wait until its time, notify, then delete its row.
//!
//! The waiting, the notification and the deletion are the caller's to carry
//! out. `ArmedReminder::step` says after each of them what comes next.

use vstd::prelude::*;
use vstd::string::*;
use crate::instant::{UtcInstant, Span, nanos_until};

verus! {

/// How far an armed reminder has come.
#[derive(Debug, Clone, Copy, PartialEq, Eq, Structural)]
pub enum FireState {
    /// Armed, the clock not yet read.
    Armed,
    /// Waiting for the trigger time.
    Sleeping,
    /// The notification is being shown.
    Notifying,
    /// The row is being deleted.
    Deleting,
    /// Done; nothing more will happen.
    Fired,
}

/// What went wrong on the way, to be logged and otherwise ignored.
#[derive(Debug, Clone, Copy, PartialEq, Eq, Structural)]
pub enum FireWarning {
    NotificationFailed,
    DeletionFailed,
}

/// What has just happened.
#[derive(Debug, Clone, Copy, PartialEq, Eq)]
pub enum FireEvent {
    /// The clock was read.
    Clock(UtcInstant),
    /// The wait is over.
    Woke,
    /// The notification was shown (`true`) or could not be shown.
    Notified(bool),
    /// The row was deleted (`true`) or could not be deleted.
    Deleted(bool),
}

/// What to do next.
#[derive(Debug, PartialEq, Eq)]
pub enum FireAction {
    /// Wait this long, then report `Woke`.
    Sleep(Span),
    /// Show a notification with this body, then report `Notified`.
    Notify(String),
    /// Delete the row with this id, then report `Deleted`.
    Delete(i64),
    /// Nothing is left to do.
    Finish,
    /// The event was not expected and changed nothing.
    Nothing,
}

/// What `step` hands back.
#[derive(Debug, PartialEq, Eq)]
pub struct FireStep {
    /// What to log, if anything.
    pub warning: Option<FireWarning>,
    pub action: FireAction,
}

/// A reminder for which a firing has been scheduled.
#[derive(Debug, PartialEq, Eq)]
pub struct ArmedReminder {
    id: i64,
    message: String,
    trigger: UtcInstant,
    state: FireState,
}

/// An armed reminder in plain values.
pub struct ArmedView {
    pub id: int,
    pub message: Seq<char>,
    pub trigger: (int, int),
    pub state: FireState,
}

/// An event in plain values.
pub enum FireEventView {
    Clock((int, int)),
    Woke,
    Notified(bool),
    Deleted(bool),
}

/// An action in plain values.
pub enum FireActionView {
    Sleep(nat),
    Notify(Seq<char>),
    Delete(int),
    Finish,
    Nothing,
}

/// The outcome of one step in plain values.
pub struct FireStepView {
    pub next: FireState,
    pub warning: Option<FireWarning>,
    pub action: FireActionView,
}

impl View for ArmedReminder {
    type V = ArmedView;

    closed spec fn view(&self) -> ArmedView {
        ArmedView {
            id: self.id as int,
            message: self.message@,
            trigger: self.trigger@,
            state: self.state,
        }
    }
}

impl View for FireEvent {
    type V = FireEventView;

    open spec fn view(&self) -> FireEventView {
        match *self {
            FireEvent::Clock(now) => FireEventView::Clock(now@),
            FireEvent::Woke => FireEventView::Woke,
            FireEvent::Notified(shown) => FireEventView::Notified(shown),
            FireEvent::Deleted(gone) => FireEventView::Deleted(gone),
        }
    }
}

impl View for FireAction {
    type V = FireActionView;

    open spec fn view(&self) -> FireActionView {
        match *self {
            FireAction::Sleep(wait) => FireActionView::Sleep(wait@),
            FireAction::Notify(body) => FireActionView::Notify(body@),
            FireAction::Delete(id) => FireActionView::Delete(id as int),
            FireAction::Finish => FireActionView::Finish,
            FireAction::Nothing => FireActionView::Nothing,
        }
    }
}

/// The scheduler's rule: what an event does to an armed reminder.
pub open spec fn fire_step(armed: ArmedView, event: FireEventView) -> FireStepView {
    match (armed.state, event) {
        (FireState::Armed, FireEventView::Clock(now)) => if nanos_until(armed.trigger, now) > 0 {
            FireStepView {
                next: FireState::Sleeping,
                warning: None,
                action: FireActionView::Sleep(nanos_until(armed.trigger, now)),
            }
        } else {
            FireStepView {
                next: FireState::Notifying,
                warning: None,
                action: FireActionView::Notify(armed.message),
            }
        },
        (FireState::Sleeping, FireEventView::Woke) => FireStepView {
            next: FireState::Notifying,
            warning: None,
            action: FireActionView::Notify(armed.message),
        },
        (FireState::Notifying, FireEventView::Notified(shown)) => FireStepView {
            next: FireState::Deleting,
            warning: if shown {
                None
            } else {
                Some(FireWarning::NotificationFailed)
            },
            action: FireActionView::Delete(armed.id),
        },
        (FireState::Deleting, FireEventView::Deleted(gone)) => FireStepView {
            next: FireState::Fired,
            warning: if gone {
                None
            } else {
                Some(FireWarning::DeletionFailed)
            },
            action: FireActionView::Finish,
        },
        _ => FireStepView { next: armed.state, warning: None, action: FireActionView::Nothing },
    }
}

/// How long to wait from `now` before a reminder due at `trigger` fires.
/// `None` when its time has come or passed.
pub fn wait_before_firing(trigger: &UtcInstant, now: &UtcInstant) -> (wait: Option<Span>)
    ensures
        wait is Some <==> nanos_until(trigger@, now@) > 0,
        wait matches Some(d) ==> d@ == nanos_until(trigger@, now@),
{
    match trigger.signed_duration_since(now).to_std() {
        Some(d) => if d.is_zero() {
            None
        } else {
            Some(d)
        },
        None => None,
    }
}

/// Arms one firing for the reminder `id`, due at `trigger`.
pub fn schedule(id: i64, message: String, trigger: UtcInstant) -> (armed: ArmedReminder)
    ensures
        armed@ == (ArmedView {
            id: id as int,
            message: message@,
            trigger: trigger@,
            state: FireState::Armed,
        }),
{
    ArmedReminder { id, message, trigger, state: FireState::Armed }
}

impl ArmedReminder {
    /// The reminder's id in the store.
    pub fn id(&self) -> (id: i64)
        ensures
            id == self@.id,
    {
        self.id
    }

    /// The text to notify with.
    pub fn message(&self) -> (message: &String)
        ensures
            message@ == self@.message,
    {
        &self.message
    }

    /// When the reminder is due.
    pub fn trigger(&self) -> (trigger: UtcInstant)
        ensures
            trigger@ == self@.trigger,
    {
        self.trigger
    }

    /// How far the firing has come.
    pub fn state(&self) -> (state: FireState)
        ensures
            state == self@.state,
    {
        self.state
    }

    /// Takes note of `event` and says what to do next.
    pub fn step(&mut self, event: FireEvent) -> (step: FireStep)
        ensures
            step.action@ == fire_step(old(self)@, event@).action,
            step.warning == fire_step(old(self)@, event@).warning,
            final(self)@ == (ArmedView {
                state: fire_step(old(self)@, event@).next,
                ..old(self)@
            }),
    {
        match (self.state, event) {
            (FireState::Armed, FireEvent::Clock(now)) => {
                match wait_before_firing(&self.trigger, &now) {
                    Some(wait) => {
                        self.state = FireState::Sleeping;
                        FireStep { warning: None, action: FireAction::Sleep(wait) }
                    },
                    None => {
                        self.state = FireState::Notifying;
                        FireStep { warning: None, action: FireAction::Notify(self.message.clone()) }
                    },
                }
            },
            (FireState::Sleeping, FireEvent::Woke) => {
                self.state = FireState::Notifying;
                FireStep { warning: None, action: FireAction::Notify(self.message.clone()) }
            },
            (FireState::Notifying, FireEvent::Notified(shown)) => {
                self.state = FireState::Deleting;
                FireStep {
                    warning: if shown {
                        None
                    } else {
                        Some(FireWarning::NotificationFailed)
                    },
                    action: FireAction::Delete(self.id),
                }
            },
            (FireState::Deleting, FireEvent::Deleted(gone)) => {
                self.state = FireState::Fired;
                FireStep {
                    warning: if gone {
                        None
                    } else {
                        Some(FireWarning::DeletionFailed)
                    },
                    action: FireAction::Finish,
                }
            },
            _ => FireStep { warning: None, action: FireAction::Nothing },
        }
    }
}

/// The armed reminder after `event`.
pub open spec fn after_event(armed: ArmedView, event: FireEventView) -> ArmedView {
    ArmedView { state: fire_step(armed, event).next, ..armed }
}

/// The armed reminder after all of `events`, in their order.
pub open spec fn after_events(armed: ArmedView, events: Seq<FireEventView>) -> ArmedView
    decreases events.len(),
{
    if events.len() == 0 {
        armed
    } else {
        after_events(after_event(armed, events[0]), events.drop_first())
    }
}

/// How often `events`, in their order, make the armed reminder notify.
pub open spec fn notifications(armed: ArmedView, events: Seq<FireEventView>) -> nat
    decreases events.len(),
{
    if events.len() == 0 {
        0
    } else {
        let rest = notifications(after_event(armed, events[0]), events.drop_first());
        if fire_step(armed, events[0]).action is Notify {
            rest + 1
        } else {
            rest
        }
    }
}

/// How often `events`, in their order, make the armed reminder delete its
/// row.
pub open spec fn deletions(armed: ArmedView, events: Seq<FireEventView>) -> nat
    decreases events.len(),
{
    if events.len() == 0 {
        0
    } else {
        let rest = deletions(after_event(armed, events[0]), events.drop_first());
        if fire_step(armed, events[0]).action is Delete {
            rest + 1
        } else {
            rest
        }
    }
}

/// A reminder whose time has come or passed when the clock is read is not
/// waited for: it notifies at once with its message, then deletes its own
/// row whether or not the notification was shown, and is done whether or
/// not the row was deleted.
pub proof fn lemma_overdue_fires_at_once(
    armed: ArmedView,
    now: (int, int),
    shown: bool,
    gone: bool,
)
    requires
        armed.state == FireState::Armed,
        nanos_until(armed.trigger, now) == 0,
    ensures
        fire_step(armed, FireEventView::Clock(now)).action == FireActionView::Notify(
            armed.message,
        ),
        fire_step(
            after_event(armed, FireEventView::Clock(now)),
            FireEventView::Notified(shown),
        ).action == FireActionView::Delete(armed.id),
        after_events(
            armed,
            seq![
                FireEventView::Clock(now),
                FireEventView::Notified(shown),
                FireEventView::Deleted(gone),
            ],
        ).state == FireState::Fired,
{
    let events = seq![
        FireEventView::Clock(now),
        FireEventView::Notified(shown),
        FireEventView::Deleted(gone),
    ];
    let first = after_event(armed, events[0]);
    let second = after_event(first, events[1]);
    let third = after_event(second, events[2]);
    assert(events.drop_first().drop_first().drop_first().len() == 0);
    assert(after_events(third, events.drop_first().drop_first().drop_first()) == third);
    assert(after_events(second, events.drop_first().drop_first()) == third);
    assert(after_events(first, events.drop_first()) == third);
}

/// A reminder that is due later is waited for exactly as long as it takes,
/// and notifies when the wait is over.
pub proof fn lemma_due_later_waits(armed: ArmedView, now: (int, int))
    requires
        armed.state == FireState::Armed,
        nanos_until(armed.trigger, now) > 0,
    ensures
        fire_step(armed, FireEventView::Clock(now)).action == FireActionView::Sleep(
            nanos_until(armed.trigger, now),
        ),
        fire_step(after_event(armed, FireEventView::Clock(now)), FireEventView::Woke).action
            == FireActionView::Notify(armed.message),
{
}

/// Whatever happens and in whatever order, an armed reminder notifies at
/// most once and deletes at most once; one that has notified will not
/// notify again.
pub proof fn lemma_fires_at_most_once(armed: ArmedView, events: Seq<FireEventView>)
    ensures
        notifications(armed, events) <= 1,
        deletions(armed, events) <= 1,
        armed.state != FireState::Armed && armed.state != FireState::Sleeping ==> notifications(
            armed,
            events,
        ) == 0,
        armed.state == FireState::Deleting || armed.state == FireState::Fired ==> deletions(
            armed,
            events,
        ) == 0,
    decreases events.len(),
{
    if events.len() > 0 {
        lemma_fires_at_most_once(after_event(armed, events[0]), events.drop_first());
    }
}

/// A reminder that went from armed to fired has notified exactly once and
/// deleted exactly once.
pub proof fn lemma_fired_means_fired_once(armed: ArmedView, events: Seq<FireEventView>)
    requires
        after_events(armed, events).state == FireState::Fired,
    ensures
        armed.state == FireState::Armed || armed.state == FireState::Sleeping ==> notifications(
            armed,
            events,
        ) == 1,
        armed.state != FireState::Deleting && armed.state != FireState::Fired ==> deletions(
            armed,
            events,
        ) == 1,
    decreases events.len(),
{
    if events.len() > 0 {
        lemma_fired_means_fired_once(after_event(armed, events[0]), events.drop_first());
        lemma_fires_at_most_once(after_event(armed, events[0]), events.drop_first());
    }
}

} // verus!
