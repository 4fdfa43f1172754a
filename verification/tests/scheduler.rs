use reminder_cli::scheduler::{
    schedule, wait_before_firing, ArmedReminder, FireAction, FireEvent, FireState, FireStep,
    FireWarning,
};
use reminder_cli::instant::{Span, UtcInstant};

fn at(secs: i64, nanos: u32) -> UtcInstant {
    UtcInstant::from_timestamp(secs, nanos).unwrap()
}

fn armed_at(trigger: UtcInstant) -> ArmedReminder {
    schedule(7, "water the plants".to_string(), trigger)
}

fn quiet(action: FireAction) -> FireStep {
    FireStep { warning: None, action }
}

#[test]
fn arming_keeps_what_it_was_given() {
    let armed = armed_at(at(100, 5));
    assert_eq!(armed.id(), 7);
    assert_eq!(armed.message(), "water the plants");
    assert_eq!(armed.trigger(), at(100, 5));
    assert_eq!(armed.state(), FireState::Armed);
}

#[test]
fn a_reminder_of_the_past_fires_at_once() {
    let mut armed = armed_at(at(1_000, 0));
    let step = armed.step(FireEvent::Clock(at(5_000, 0)));
    assert_eq!(step, quiet(FireAction::Notify("water the plants".to_string())));
    assert_eq!(armed.state(), FireState::Notifying);
    let step = armed.step(FireEvent::Notified(true));
    assert_eq!(step, quiet(FireAction::Delete(7)));
    assert_eq!(armed.state(), FireState::Deleting);
    let step = armed.step(FireEvent::Deleted(true));
    assert_eq!(step, quiet(FireAction::Finish));
    assert_eq!(armed.state(), FireState::Fired);
}

#[test]
fn a_reminder_due_this_instant_fires_at_once() {
    let mut armed = armed_at(at(1_000, 250));
    let step = armed.step(FireEvent::Clock(at(1_000, 250)));
    assert_eq!(step, quiet(FireAction::Notify("water the plants".to_string())));
}

#[test]
fn a_reminder_of_the_future_is_waited_for() {
    let mut armed = armed_at(at(1_090, 500_000_000));
    let step = armed.step(FireEvent::Clock(at(1_000, 0)));
    assert_eq!(step, quiet(FireAction::Sleep(Span::new(90, 500_000_000).unwrap())));
    assert_eq!(armed.state(), FireState::Sleeping);
    let step = armed.step(FireEvent::Woke);
    assert_eq!(step, quiet(FireAction::Notify("water the plants".to_string())));
    assert_eq!(armed.state(), FireState::Notifying);
}

#[test]
fn a_wait_of_one_nanosecond_is_a_wait() {
    let mut armed = armed_at(at(1_000, 1));
    let step = armed.step(FireEvent::Clock(at(1_000, 0)));
    assert_eq!(step, quiet(FireAction::Sleep(Span::new(0, 1).unwrap())));
}

#[test]
fn the_wait_is_the_time_left() {
    assert_eq!(wait_before_firing(&at(10, 0), &at(4, 500_000_000)), Span::new(5, 500_000_000));
    assert_eq!(wait_before_firing(&at(10, 0), &at(10, 0)), None);
    assert_eq!(wait_before_firing(&at(10, 0), &at(10, 1)), None);
    assert_eq!(wait_before_firing(&at(4_070_908_800, 0), &at(1_700_000_000, 0)), Span::new(2_370_908_800, 0));
}

#[test]
fn a_failed_notification_is_a_warning_and_the_row_is_deleted_all_the_same() {
    let mut armed = armed_at(at(0, 0));
    armed.step(FireEvent::Clock(at(1, 0)));
    let step = armed.step(FireEvent::Notified(false));
    assert_eq!(
        step,
        FireStep { warning: Some(FireWarning::NotificationFailed), action: FireAction::Delete(7) }
    );
}

#[test]
fn a_failed_deletion_is_a_warning_and_the_end() {
    let mut armed = armed_at(at(0, 0));
    armed.step(FireEvent::Clock(at(1, 0)));
    armed.step(FireEvent::Notified(true));
    let step = armed.step(FireEvent::Deleted(false));
    assert_eq!(
        step,
        FireStep { warning: Some(FireWarning::DeletionFailed), action: FireAction::Finish }
    );
    assert_eq!(armed.state(), FireState::Fired);
}

#[test]
fn events_out_of_turn_change_nothing() {
    let mut armed = armed_at(at(50, 0));
    assert_eq!(armed.step(FireEvent::Woke), quiet(FireAction::Nothing));
    assert_eq!(armed.step(FireEvent::Notified(true)), quiet(FireAction::Nothing));
    assert_eq!(armed.step(FireEvent::Deleted(false)), quiet(FireAction::Nothing));
    assert_eq!(armed.state(), FireState::Armed);
    armed.step(FireEvent::Clock(at(0, 0)));
    assert_eq!(armed.step(FireEvent::Clock(at(100, 0))), quiet(FireAction::Nothing));
    assert_eq!(armed.state(), FireState::Sleeping);
}

#[test]
fn a_reminder_fires_once_whatever_is_reported() {
    let events = vec![
        FireEvent::Woke,
        FireEvent::Clock(at(0, 0)),
        FireEvent::Clock(at(9_999, 0)),
        FireEvent::Woke,
        FireEvent::Woke,
        FireEvent::Clock(at(9_999, 0)),
        FireEvent::Notified(true),
        FireEvent::Notified(false),
        FireEvent::Woke,
        FireEvent::Deleted(true),
        FireEvent::Deleted(true),
        FireEvent::Clock(at(9_999, 0)),
        FireEvent::Woke,
        FireEvent::Notified(true),
    ];
    let mut armed = armed_at(at(1_000, 0));
    let mut notified = 0;
    let mut deleted = 0;
    for event in events {
        match armed.step(event).action {
            FireAction::Notify(_) => notified += 1,
            FireAction::Delete(_) => deleted += 1,
            _ => {}
        }
    }
    assert_eq!((notified, deleted), (1, 1));
    assert_eq!(armed.state(), FireState::Fired);
}

#[test]
fn a_fired_reminder_stays_fired() {
    let mut armed = armed_at(at(0, 0));
    armed.step(FireEvent::Clock(at(1, 0)));
    armed.step(FireEvent::Notified(true));
    armed.step(FireEvent::Deleted(true));
    for event in [
        FireEvent::Clock(at(2, 0)),
        FireEvent::Woke,
        FireEvent::Notified(true),
        FireEvent::Deleted(true),
    ] {
        assert_eq!(armed.step(event), quiet(FireAction::Nothing));
        assert_eq!(armed.state(), FireState::Fired);
    }
}
