//! Creating a reminder, step by step.
//!
//! Creation reads the environment, asks the advice service, reads the clock
//! and writes to the store. Those are the caller's to carry out; after each
//! of them `create_reminder` says what comes next. The order is fixed: the
//! key is looked up first, advice is asked for before the time expression is
//! read, and nothing is stored unless the time expression is understood.

use vstd::prelude::*;
use vstd::string::*;
use crate::config::{Config, ConfigError};
use crate::deepseek::{AdviceError, AdviceRequest, AdviceRequestView, advice_request, request_for};
use crate::scheduler::{
    ArmedReminder,
    ArmedView,
    FireActionView,
    FireEventView,
    FireState,
    after_event,
    fire_step,
    schedule,
};
use crate::instant::{UtcInstant, nanos_until, round_trips, valid_instant};
use crate::outside::{rfc3339_instant, rfc3339_text};
use crate::time_utils::{TimeParseError, duration_of, parse_at, parse_outcome};

verus! {

/// Why no reminder was created.
#[derive(Debug, Clone, Copy, PartialEq, Eq, Structural)]
pub enum CreateError {
    /// The key for the advice service is missing.
    Config(ConfigError),
    /// The time expression was not understood.
    Time(TimeParseError),
    /// The store did not take the reminder.
    Storage,
    /// An event came that was not asked for.
    OutOfTurn,
}

/// How the request for advice ended, to be told to the user.
#[derive(Debug, Clone, Copy, PartialEq, Eq, Structural)]
pub enum AdviceNotice {
    /// Advice was generated.
    Generated,
    /// No advice was generated; creation goes on without.
    Failed(AdviceError),
}

/// What has just happened.
#[derive(Debug, PartialEq, Eq)]
pub enum CreateEvent {
    /// The environment was read; this is what it holds under
    /// `config::API_KEY_VAR`.
    Environment(Option<String>),
    /// The advice service answered or failed, and the clock then showed the
    /// instant given.
    Advice(Result<String, AdviceError>, UtcInstant),
    /// The store took the reminder and gave it this id, or did not take it.
    Inserted(Option<i64>),
}

/// What to do next.
#[derive(Debug, PartialEq, Eq)]
pub enum CreateAction {
    /// Post this request, read the clock, then report `Advice`.
    RequestAdvice(AdviceRequest),
    /// Store a reminder with these values, then report `Inserted`.
    Insert { message: String, trigger_time: String, ai_advice: Option<String> },
    /// The reminder is created. Let `armed` run, and report its id and
    /// `advice` to the user.
    Arm { armed: ArmedReminder, advice: Option<String> },
    /// Creation has failed.
    Fail(CreateError),
}

/// What `create_reminder` hands back.
#[derive(Debug, PartialEq, Eq)]
pub struct CreateStep {
    /// What to tell the user about the advice, if anything.
    pub notice: Option<AdviceNotice>,
    pub action: CreateAction,
}

#[derive(Debug)]
enum CreateStage {
    Start,
    AwaitingAdvice,
    AwaitingInsert { trigger: UtcInstant, advice: Option<String> },
    Done,
}

/// One creation under way.
#[derive(Debug)]
pub struct CreateFlow {
    time_str: String,
    message: String,
    stage: CreateStage,
}

/// How far a creation has come, in plain values.
pub enum CreateStageView {
    /// Nothing has happened yet.
    Start,
    /// The advice service has been asked.
    AwaitingAdvice,
    /// The store has been asked to take the reminder.
    AwaitingInsert { trigger: (int, int), advice: Option<Seq<char>> },
    /// Created or failed; nothing more will happen.
    Done,
}

/// A creation under way, in plain values.
pub struct CreateFlowView {
    pub time_str: Seq<char>,
    pub message: Seq<char>,
    pub stage: CreateStageView,
}

/// An event in plain values.
pub enum CreateEventView {
    Environment(Option<Seq<char>>),
    Advice(Result<Seq<char>, AdviceError>, (int, int)),
    Inserted(Option<int>),
}

/// An action in plain values.
pub enum CreateActionView {
    RequestAdvice(AdviceRequestView),
    Insert { message: Seq<char>, trigger_time: Seq<char>, ai_advice: Option<Seq<char>> },
    Arm { armed: ArmedView, advice: Option<Seq<char>> },
    Fail(CreateError),
}

/// The outcome of one step in plain values.
pub struct CreateStepView {
    pub next: CreateStageView,
    pub notice: Option<AdviceNotice>,
    pub action: CreateActionView,
}

/// The characters of an optional text.
pub open spec fn text_view(text: Option<String>) -> Option<Seq<char>> {
    match text {
        Some(s) => Some(s@),
        None => None,
    }
}

impl View for CreateStage {
    type V = CreateStageView;

    closed spec fn view(&self) -> CreateStageView {
        match *self {
            CreateStage::Start => CreateStageView::Start,
            CreateStage::AwaitingAdvice => CreateStageView::AwaitingAdvice,
            CreateStage::AwaitingInsert { trigger, advice } => CreateStageView::AwaitingInsert {
                trigger: trigger@,
                advice: text_view(advice),
            },
            CreateStage::Done => CreateStageView::Done,
        }
    }
}

impl View for CreateFlow {
    type V = CreateFlowView;

    closed spec fn view(&self) -> CreateFlowView {
        CreateFlowView { time_str: self.time_str@, message: self.message@, stage: self.stage@ }
    }
}

impl View for CreateEvent {
    type V = CreateEventView;

    open spec fn view(&self) -> CreateEventView {
        match *self {
            CreateEvent::Environment(key) => CreateEventView::Environment(text_view(key)),
            CreateEvent::Advice(outcome, now) => CreateEventView::Advice(
                match outcome {
                    Ok(advice) => Ok(advice@),
                    Err(e) => Err(e),
                },
                now@,
            ),
            CreateEvent::Inserted(id) => CreateEventView::Inserted(
                match id {
                    Some(id) => Some(id as int),
                    None => None,
                },
            ),
        }
    }
}

impl View for CreateAction {
    type V = CreateActionView;

    open spec fn view(&self) -> CreateActionView {
        match *self {
            CreateAction::RequestAdvice(request) => CreateActionView::RequestAdvice(request@),
            CreateAction::Insert { message, trigger_time, ai_advice } => CreateActionView::Insert {
                message: message@,
                trigger_time: trigger_time@,
                ai_advice: text_view(ai_advice),
            },
            CreateAction::Arm { armed, advice } => CreateActionView::Arm {
                armed: armed@,
                advice: text_view(advice),
            },
            CreateAction::Fail(e) => CreateActionView::Fail(e),
        }
    }
}

/// A step that ends the creation in failure.
pub open spec fn failed(notice: Option<AdviceNotice>, error: CreateError) -> CreateStepView {
    CreateStepView { next: CreateStageView::Done, notice, action: CreateActionView::Fail(error) }
}

/// The rule of creation: what an event does to a creation under way.
pub open spec fn create_step(flow: CreateFlowView, event: CreateEventView) -> CreateStepView {
    match (flow.stage, event) {
        (CreateStageView::Start, CreateEventView::Environment(Some(key))) => CreateStepView {
            next: CreateStageView::AwaitingAdvice,
            notice: None,
            action: CreateActionView::RequestAdvice(request_for(key, flow.message)),
        },
        (CreateStageView::Start, CreateEventView::Environment(None)) => failed(
            None,
            CreateError::Config(ConfigError::MissingApiKey),
        ),
        (CreateStageView::AwaitingAdvice, CreateEventView::Advice(outcome, now)) => {
            let notice = match outcome {
                Ok(_) => AdviceNotice::Generated,
                Err(e) => AdviceNotice::Failed(e),
            };
            let advice = match outcome {
                Ok(advice) => Some(advice),
                Err(_) => None,
            };
            match parse_outcome(flow.time_str, now) {
                Ok(trigger) => CreateStepView {
                    next: CreateStageView::AwaitingInsert { trigger, advice },
                    notice: Some(notice),
                    action: CreateActionView::Insert {
                        message: flow.message,
                        trigger_time: rfc3339_text(trigger),
                        ai_advice: advice,
                    },
                },
                Err(e) => failed(Some(notice), CreateError::Time(e)),
            }
        },
        (
            CreateStageView::AwaitingInsert { trigger, advice },
            CreateEventView::Inserted(Some(id)),
        ) => CreateStepView {
            next: CreateStageView::Done,
            notice: None,
            action: CreateActionView::Arm {
                armed: ArmedView { id, message: flow.message, trigger, state: FireState::Armed },
                advice,
            },
        },
        (CreateStageView::AwaitingInsert { .. }, CreateEventView::Inserted(None)) => failed(
            None,
            CreateError::Storage,
        ),
        _ => failed(None, CreateError::OutOfTurn),
    }
}

/// Whether the text that a step hands to the store reads back as the
/// instant the reminder is due at. Asked only of a time in the years 0 to
/// 9999: RFC 3339 has four digits for the year.
pub open spec fn stored_time_reads_back(step: CreateStepView) -> bool {
    match (step.next, step.action) {
        (
            CreateStageView::AwaitingInsert { trigger, .. },
            CreateActionView::Insert { trigger_time, .. },
        ) => round_trips(trigger) ==> rfc3339_instant(trigger_time) == Some(trigger),
        _ => true,
    }
}

impl CreateFlow {
    /// Starts the creation of a reminder for `message`, due at what
    /// `time_str` says.
    pub fn new(time_str: String, message: String) -> (flow: CreateFlow)
        ensures
            flow@ == (CreateFlowView {
                time_str: time_str@,
                message: message@,
                stage: CreateStageView::Start,
            }),
    {
        CreateFlow { time_str, message, stage: CreateStage::Start }
    }

    /// Whether the creation has ended, in success or failure.
    pub fn is_done(&self) -> (done: bool)
        ensures
            done == (self@.stage == CreateStageView::Done),
    {
        match self.stage {
            CreateStage::Done => true,
            _ => false,
        }
    }
}

/// Takes note of `event` and says what to do next.
///
/// The text handed to the store is the trigger time as chrono writes it; for
/// a time in the years 0 to 9999 it reads back as the same instant.
pub fn create_reminder(flow: &mut CreateFlow, event: CreateEvent) -> (step: CreateStep)
    ensures
        step.action@ == create_step(old(flow)@, event@).action,
        step.notice == create_step(old(flow)@, event@).notice,
        final(flow)@ == (CreateFlowView {
            stage: create_step(old(flow)@, event@).next,
            ..old(flow)@
        }),
        stored_time_reads_back(create_step(old(flow)@, event@)),
{
    let mut stage = CreateStage::Done;
    std::mem::swap(&mut flow.stage, &mut stage);
    match (stage, event) {
        (CreateStage::Start, CreateEvent::Environment(key)) => {
            match Config::from_env(key) {
                Ok(config) => {
                    flow.stage = CreateStage::AwaitingAdvice;
                    CreateStep {
                        notice: None,
                        action: CreateAction::RequestAdvice(
                            advice_request(config.api_key.as_str(), flow.message.as_str()),
                        ),
                    }
                },
                Err(e) => CreateStep {
                    notice: None,
                    action: CreateAction::Fail(CreateError::Config(e)),
                },
            }
        },
        (CreateStage::AwaitingAdvice, CreateEvent::Advice(outcome, now)) => {
            let (notice, advice) = match outcome {
                Ok(advice) => (AdviceNotice::Generated, Some(advice)),
                Err(e) => (AdviceNotice::Failed(e), None),
            };
            match parse_at(flow.time_str.as_str(), &now) {
                Ok(trigger) => {
                    let trigger_time = trigger.to_rfc3339();
                    let ai_advice = match &advice {
                        Some(text) => Some(text.clone()),
                        None => None,
                    };
                    flow.stage = CreateStage::AwaitingInsert { trigger, advice };
                    CreateStep {
                        notice: Some(notice),
                        action: CreateAction::Insert {
                            message: flow.message.clone(),
                            trigger_time,
                            ai_advice,
                        },
                    }
                },
                Err(e) => CreateStep {
                    notice: Some(notice),
                    action: CreateAction::Fail(CreateError::Time(e)),
                },
            }
        },
        (CreateStage::AwaitingInsert { trigger, advice }, CreateEvent::Inserted(Some(id))) => {
            CreateStep {
                notice: None,
                action: CreateAction::Arm {
                    armed: schedule(id, flow.message.clone(), trigger),
                    advice,
                },
            }
        },
        (CreateStage::AwaitingInsert { .. }, CreateEvent::Inserted(None)) => CreateStep {
            notice: None,
            action: CreateAction::Fail(CreateError::Storage),
        },
        _ => CreateStep { notice: None, action: CreateAction::Fail(CreateError::OutOfTurn) },
    }
}

/// The creation after `event`.
pub open spec fn after_create_event(flow: CreateFlowView, event: CreateEventView) -> CreateFlowView {
    CreateFlowView { stage: create_step(flow, event).next, ..flow }
}

/// A creation as it starts.
pub open spec fn fresh(time_str: Seq<char>, message: Seq<char>) -> CreateFlowView {
    CreateFlowView { time_str, message, stage: CreateStageView::Start }
}

/// When the advice service fails, a reminder is created all the same: the
/// failure is told, the reminder is stored without advice, and once the
/// store has taken it the creation succeeds with the id the store gave.
pub proof fn lemma_created_without_advice(
    time_str: Seq<char>,
    message: Seq<char>,
    key: Seq<char>,
    failure: AdviceError,
    now: (int, int),
    id: int,
)
    requires
        parse_outcome(time_str, now) is Ok,
    ensures
        ({
            let trigger = parse_outcome(time_str, now)->Ok_0;
            let asked = after_create_event(
                fresh(time_str, message),
                CreateEventView::Environment(Some(key)),
            );
            let answered = create_step(asked, CreateEventView::Advice(Err(failure), now));
            let stored = create_step(
                after_create_event(asked, CreateEventView::Advice(Err(failure), now)),
                CreateEventView::Inserted(Some(id)),
            );
            &&& answered.notice == Some(AdviceNotice::Failed(failure))
            &&& answered.action == CreateActionView::Insert {
                message,
                trigger_time: rfc3339_text(trigger),
                ai_advice: None,
            }
            &&& stored.action == CreateActionView::Arm {
                armed: ArmedView { id, message, trigger, state: FireState::Armed },
                advice: None,
            }
        }),
{
}

/// Without a key nothing is asked of the advice service, and a time
/// expression that is not understood leaves nothing to store: either way
/// the creation fails on the spot.
pub proof fn lemma_fails_before_storing(
    time_str: Seq<char>,
    message: Seq<char>,
    key: Seq<char>,
    outcome: Result<Seq<char>, AdviceError>,
    now: (int, int),
)
    ensures
        create_step(fresh(time_str, message), CreateEventView::Environment(None)) == failed(
            None,
            CreateError::Config(ConfigError::MissingApiKey),
        ),
        parse_outcome(time_str, now) matches Err(e) ==> create_step(
            after_create_event(fresh(time_str, message), CreateEventView::Environment(Some(key))),
            CreateEventView::Advice(outcome, now),
        ).action == CreateActionView::Fail(CreateError::Time(e)),
{
}

/// A creation that has ended stays ended: whatever is reported to it, it
/// asks for nothing more.
pub proof fn lemma_done_stays_done(flow: CreateFlowView, event: CreateEventView)
    requires
        flow.stage == CreateStageView::Done,
    ensures
        create_step(flow, event) == failed(None, CreateError::OutOfTurn),
{
}

/// A reminder for a duration of nothing is due at the clock reading
/// itself: that instant is what is stored, and once the store has taken
/// it, the armed reminder notifies at the first clock reading that is not
/// before it, without a wait, and then deletes its own row.
pub proof fn lemma_reminder_for_now(
    time_str: Seq<char>,
    message: Seq<char>,
    key: Seq<char>,
    outcome: Result<Seq<char>, AdviceError>,
    now: (int, int),
    id: int,
    later: (int, int),
    shown: bool,
)
    requires
        valid_instant(now),
        time_str.len() > 0 && time_str[0] == '+',
        duration_of(time_str.subrange(1, time_str.len() as int)) == Some(0nat),
        nanos_until(now, later) == 0,
    ensures
        ({
            let asked = after_create_event(
                fresh(time_str, message),
                CreateEventView::Environment(Some(key)),
            );
            let answered = create_step(asked, CreateEventView::Advice(outcome, now));
            let stored = create_step(
                after_create_event(asked, CreateEventView::Advice(outcome, now)),
                CreateEventView::Inserted(Some(id)),
            );
            let armed = ArmedView { id, message, trigger: now, state: FireState::Armed };
            &&& answered.action matches CreateActionView::Insert {
                message: stored_message,
                trigger_time,
                ..
            } && stored_message == message && trigger_time == rfc3339_text(now)
            &&& stored.action matches CreateActionView::Arm { armed: handed, .. } && handed
                == armed
            &&& fire_step(armed, FireEventView::Clock(later)).action == FireActionView::Notify(
                message,
            )
            &&& fire_step(
                after_event(armed, FireEventView::Clock(later)),
                FireEventView::Notified(shown),
            ).action == FireActionView::Delete(id)
        }),
{
}

} // verus!
