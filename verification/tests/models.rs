use reminder_dispatch::due::UtcDateTime;
use reminder_dispatch::models::{clone_reminders, Reminder};

fn reminder_due(remind_at: &str) -> Reminder {
    Reminder { id: "r".to_string(), message: "m".to_string(), remind_at: remind_at.to_string() }
}

#[test]
fn new_reminder_keeps_message_and_due_time() {
    let reminder = Reminder::new("buy milk".to_string(), "2025-01-01T09:00:00Z".to_string());
    assert_eq!(reminder.message, "buy milk");
    assert_eq!(reminder.remind_at, "2025-01-01T09:00:00Z");
}

#[test]
fn new_reminder_takes_unvalidated_text() {
    let reminder = Reminder::new(String::new(), "whenever".to_string());
    assert_eq!(reminder.message, "");
    assert_eq!(reminder.remind_at, "whenever");
    assert!(!reminder.id.is_empty());
}

#[test]
fn new_reminder_has_hyphenated_identifier() {
    let reminder = Reminder::new("m".to_string(), "t".to_string());
    let id: Vec<char> = reminder.id.chars().collect();
    assert_eq!(id.len(), 36);
    for (i, c) in id.iter().enumerate() {
        if i == 8 || i == 13 || i == 18 || i == 23 {
            assert_eq!(*c, '-');
        } else {
            assert!(matches!(*c, '0'..='9' | 'a'..='f'));
        }
    }
    assert_eq!(id[14], '4');
    assert!(matches!(id[19], '8' | '9' | 'a' | 'b'));
}

#[test]
fn new_reminder_identifier_is_a_random_uuid() {
    let reminder = Reminder::new("m".to_string(), "t".to_string());
    let parsed = uuid::Uuid::parse_str(&reminder.id).expect("a uuid");
    assert_eq!(parsed.get_version_num(), 4);
    assert_eq!(parsed.to_string(), reminder.id);
}

#[test]
fn new_reminders_differ_in_identifier() {
    let first = Reminder::new("m".to_string(), "t".to_string());
    let second = Reminder::new("m".to_string(), "t".to_string());
    assert_ne!(first.id, second.id);
}

#[test]
fn clone_keeps_every_field() {
    let reminder = Reminder::new("call home".to_string(), "2030-06-01T12:00:00+02:00".to_string());
    let copy = reminder.clone();
    assert_eq!(copy.id, reminder.id);
    assert_eq!(copy.message, reminder.message);
    assert_eq!(copy.remind_at, reminder.remind_at);
}

#[test]
fn clone_reminders_keeps_order() {
    let list = vec![reminder_due("a"), reminder_due("b"), reminder_due("c")];
    let copy = clone_reminders(&list);
    assert_eq!(copy.len(), 3);
    assert_eq!(copy[0].remind_at, "a");
    assert_eq!(copy[1].remind_at, "b");
    assert_eq!(copy[2].remind_at, "c");
    assert!(clone_reminders(&Vec::new()).is_empty());
}

#[test]
fn into_datetime_reads_utc_text() {
    let due = reminder_due("2025-01-01T09:00:00Z").into_datetime();
    assert_eq!(due, UtcDateTime { seconds: 1735722000, nanoseconds: 0 });
}

#[test]
fn into_datetime_honours_the_offset() {
    let due = reminder_due("1996-12-19T16:39:57-08:00").into_datetime();
    assert_eq!(due, UtcDateTime { seconds: 851042397, nanoseconds: 0 });
}

#[test]
fn into_datetime_reads_fractions_of_a_second() {
    let due = reminder_due("2025-01-01T09:00:00.5Z").into_datetime();
    assert_eq!(due, UtcDateTime { seconds: 1735722000, nanoseconds: 500_000_000 });
}

#[test]
fn into_datetime_reads_times_before_the_epoch() {
    let due = reminder_due("1969-12-31T23:59:59Z").into_datetime();
    assert_eq!(due, UtcDateTime { seconds: -1, nanoseconds: 0 });
}

#[test]
fn into_datetime_agrees_with_chrono() {
    let text = "2024-02-29T23:59:59.123456789+05:30";
    let expected = chrono::DateTime::parse_from_rfc3339(text).expect("rfc 3339").to_utc();
    let due = reminder_due(text).into_datetime();
    assert_eq!(due.seconds, expected.timestamp());
    assert_eq!(due.nanoseconds, expected.timestamp_subsec_nanos());
}

#[test]
fn checked_datetime_gives_the_instant() {
    let due = reminder_due("2025-01-01T09:00:00Z").checked_datetime();
    assert_eq!(due, Some(UtcDateTime { seconds: 1735722000, nanoseconds: 0 }));
}

#[test]
fn checked_datetime_rejects_other_text() {
    assert_eq!(reminder_due("tomorrow at nine").checked_datetime(), None);
    assert_eq!(reminder_due("").checked_datetime(), None);
    assert_eq!(reminder_due("2025-01-01").checked_datetime(), None);
    assert_eq!(reminder_due("2025-13-01T09:00:00Z").checked_datetime(), None);
}
