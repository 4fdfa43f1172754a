use reminder_cli::list_reminders;
use reminder_cli::listing::{empty_notice, list_line, ListLine, NO_ADVICE, NO_REMINDERS};
use reminder_cli::models::Reminder;
use reminder_cli::instant::{SignedSpan, Span, UtcInstant};

fn at(secs: i64, nanos: u32) -> UtcInstant {
    UtcInstant::from_timestamp(secs, nanos).unwrap()
}

fn reminder(id: i64, message: &str, trigger_time: &str, advice: Option<&str>) -> Reminder {
    Reminder {
        id,
        message: message.to_string(),
        trigger_time: trigger_time.to_string(),
        ai_advice: advice.map(|a| a.to_string()),
    }
}

#[test]
fn an_empty_store_gives_an_empty_list() {
    let lines = list_reminders(&Vec::new(), &at(1_700_000_000, 0));
    assert_eq!(lines, Vec::new());
    assert_eq!(NO_REMINDERS, "No pending reminders");
}

#[test]
fn a_line_shows_the_time_left() {
    let stored = reminder(3, "future", "2099-01-01T00:00:00+00:00", Some("start early"));
    let now = at(4_070_908_800 - 5_400, 0);
    assert_eq!(
        list_line(&stored, &now),
        ListLine::Entry {
            id: 3,
            message: "future".to_string(),
            overdue: false,
            remaining: "1h 30m".to_string(),
            advice: "start early".to_string(),
        }
    );
}

#[test]
fn a_line_for_the_far_future() {
    let stored = reminder(1, "future", "2099-01-01T00:00:00Z", None);
    let now = at(1_700_000_000, 0);
    assert_eq!(
        list_line(&stored, &now),
        ListLine::Entry {
            id: 1,
            message: "future".to_string(),
            overdue: false,
            remaining: "75years 1month 16days 21h 13m 4s".to_string(),
            advice: "None".to_string(),
        }
    );
}

#[test]
fn an_overdue_reminder_is_listed_with_its_delay() {
    let stored = reminder(4, "late", "2020-01-01T00:00:00+00:00", Some("hurry"));
    assert_eq!(
        list_line(&stored, &at(1_577_836_800 + 9_420, 0)),
        ListLine::Entry {
            id: 4,
            message: "late".to_string(),
            overdue: true,
            remaining: "2h 37m".to_string(),
            advice: "hurry".to_string(),
        }
    );
    match list_line(&stored, &at(1_577_836_800, 1)) {
        ListLine::Entry { overdue, remaining, .. } => {
            assert!(overdue);
            assert_eq!(remaining, "1ns");
        }
        other => panic!("{:?}", other),
    }
}

#[test]
fn a_reminder_due_this_instant_is_not_overdue() {
    let stored = reminder(4, "now", "2020-01-01T00:00:00+00:00", None);
    match list_line(&stored, &at(1_577_836_800, 0)) {
        ListLine::Entry { overdue, remaining, .. } => {
            assert!(!overdue);
            assert_eq!(remaining, "0s");
        }
        other => panic!("{:?}", other),
    }
}

#[test]
fn a_reminder_without_advice_says_so() {
    let stored = reminder(5, "plain", "2099-01-01T00:00:00+00:00", None);
    match list_line(&stored, &at(0, 0)) {
        ListLine::Entry { advice, .. } => assert_eq!(advice, NO_ADVICE),
        other => panic!("{:?}", other),
    }
    assert_eq!(NO_ADVICE, "None");
}

#[test]
fn a_time_that_cannot_be_read_is_reported_and_the_rest_is_listed() {
    let stored = vec![
        reminder(1, "first", "2099-01-01T00:00:00+00:00", None),
        reminder(2, "broken", "next tuesday", Some("never shown")),
        reminder(3, "third", "2099-01-01T00:00:01+00:00", Some("go")),
    ];
    let lines = list_reminders(&stored, &at(4_070_908_800 - 60, 0));
    assert_eq!(
        lines,
        vec![
            ListLine::Entry {
                id: 1,
                message: "first".to_string(),
                overdue: false,
                remaining: "1m".to_string(),
                advice: "None".to_string(),
            },
            ListLine::Unreadable { id: 2, trigger_time: "next tuesday".to_string() },
            ListLine::Entry {
                id: 3,
                message: "third".to_string(),
                overdue: false,
                remaining: "1m 1s".to_string(),
                advice: "go".to_string(),
            },
        ]
    );
}

#[test]
fn the_list_keeps_the_order_of_the_store() {
    let stored = vec![
        reminder(9, "b", "2099-01-01T00:00:00+00:00", None),
        reminder(2, "a", "2098-01-01T00:00:00+00:00", None),
    ];
    let ids: Vec<i64> = list_reminders(&stored, &at(0, 0))
        .iter()
        .map(|line| match line {
            ListLine::Entry { id, .. } => *id,
            ListLine::Unreadable { id, .. } => *id,
        })
        .collect();
    assert_eq!(ids, vec![9, 2]);
}

#[test]
fn the_length_of_a_span_drops_its_direction() {
    let back = at(100, 0).signed_duration_since(&at(5_000, 500));
    assert!(back.is_negative());
    assert_eq!(back.abs(), Span::new(4_900, 500).unwrap());
    let forth = at(5_000, 500).signed_duration_since(&at(100, 0));
    assert!(!forth.is_negative());
    assert_eq!(forth.abs(), Span::new(4_900, 500).unwrap());
    let none = at(100, 0).signed_duration_since(&at(100, 0));
    assert!(!none.is_negative());
    assert_eq!(none.abs(), Span::zero());
    assert_eq!(SignedSpan::new(0, -7).unwrap().abs(), Span::new(0, 7).unwrap());
    assert!(SignedSpan::new(0, -7).unwrap().is_negative());
    assert_eq!(
        SignedSpan::new(i64::MIN, -999_999_999).unwrap().abs(),
        Span::new(9_223_372_036_854_775_808, 999_999_999).unwrap()
    );
    assert_eq!(SignedSpan::new(-1, 0).unwrap().abs(), Span::new(1, 0).unwrap());
}

#[test]
fn the_notice_is_shown_for_an_empty_store_only() {
    assert_eq!(empty_notice(&Vec::new()), Some("No pending reminders"));
    let stored = vec![reminder(1, "a", "2099-01-01T00:00:00+00:00", None)];
    assert_eq!(empty_notice(&stored), None);
}
