use dun::models::{NewTask, NewTaskWithDate};
use dun::store::{StoreError, TaskLog};
use dun::text::{listing_text, summary_prompt};
use dun::time::{backdate, window_for, Timestamp};

fn now() -> Timestamp {
    Timestamp { day: 739_000, second: 30_000 }
}

fn dated(message: &str, at: Timestamp) -> NewTaskWithDate {
    NewTask { message: message.to_string() }.dated(at)
}

#[test]
fn inserted_now_is_listed_today() {
    let mut log = TaskLog::new();
    let task = log.insert(dated("Team sync", now())).unwrap();
    assert_eq!(task.id, 1);
    assert_eq!(task.message, "Team sync");
    let w = window_for(now(), 0);
    assert_eq!(log.select_in_range(w.start, w.end), vec!["Team sync".to_string()]);
}

#[test]
fn backdated_two_days_is_listed_on_that_day_only() {
    let mut log = TaskLog::new();
    log.insert(dated("Wrote report", backdate(now(), 2))).unwrap();
    let w2 = window_for(now(), 2);
    assert_eq!(log.select_in_range(w2.start, w2.end), vec!["Wrote report".to_string()]);
    for offset in [0u32, 1, 3] {
        let w = window_for(now(), offset);
        assert!(log.select_in_range(w.start, w.end).is_empty());
    }
}

#[test]
fn select_twice_gives_the_same_list() {
    let mut log = TaskLog::new();
    log.insert(dated("a", now())).unwrap();
    log.insert(dated("b", backdate(now(), 1))).unwrap();
    log.insert(dated("c", Timestamp { day: 739_000, second: 0 })).unwrap();
    let w = window_for(now(), 0);
    let first = log.select_in_range(w.start, w.end);
    let second = log.select_in_range(w.start, w.end);
    assert_eq!(first, vec!["a".to_string(), "c".to_string()]);
    assert_eq!(first, second);
    assert_eq!(log.len(), 3);
}

#[test]
fn ids_follow_insertion_order() {
    let mut log = TaskLog::new();
    assert_eq!(log.insert(dated("a", now())).unwrap().id, 1);
    assert_eq!(log.insert(dated("b", now())).unwrap().id, 2);
}

#[test]
fn empty_message_is_refused() {
    let mut log = TaskLog::new();
    assert_eq!(log.insert(dated("", now())).unwrap_err(), StoreError::EmptyMessage);
    assert_eq!(log.len(), 0);
}

#[test]
fn update_before_creation_is_refused() {
    let mut log = TaskLog::new();
    let new = NewTaskWithDate {
        message: "m".to_string(),
        created_at: now(),
        updated_at: Timestamp { day: 738_999, second: 0 },
    };
    assert_eq!(log.insert(new).unwrap_err(), StoreError::UpdatedBeforeCreated);
    assert_eq!(log.len(), 0);
}

#[test]
fn range_is_half_open() {
    let mut log = TaskLog::new();
    log.insert(dated("midnight", Timestamp { day: 739_000, second: 0 })).unwrap();
    log.insert(dated("next midnight", Timestamp { day: 739_001, second: 0 })).unwrap();
    log.insert(dated("last second", Timestamp { day: 739_000, second: 86_399 })).unwrap();
    let w = window_for(now(), 0);
    assert_eq!(
        log.select_in_range(w.start, w.end),
        vec!["midnight".to_string(), "last second".to_string()]
    );
}

#[test]
fn empty_store_lists_nothing() {
    let log = TaskLog::new();
    let w = window_for(now(), 0);
    assert!(log.select_in_range(w.start, w.end).is_empty());
}

#[test]
fn listing_quotes_each_message() {
    let messages = vec!["Team sync".to_string(), "a \"b\"".to_string()];
    assert_eq!(listing_text(&messages), "[\"Team sync\", \"a \\\"b\\\"\"]");
    assert_eq!(listing_text(&Vec::new()), "[]");
}

#[test]
fn prompt_ends_with_the_listing() {
    let messages = vec!["Team sync".to_string()];
    let prompt = summary_prompt(&messages);
    assert!(prompt.starts_with("Please format these tasks I completed yesterday"));
    assert!(prompt.ends_with("Here are the tasks: [\"Team sync\"]"));
}
