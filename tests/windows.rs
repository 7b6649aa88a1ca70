use dun::time::{backdate, window_for, Timestamp, Window, NOON, SECONDS_PER_DAY};

fn reading(day: i64, second: u32) -> Timestamp {
    Timestamp { day, second }
}

#[test]
fn window_spans_one_day() {
    let now = reading(739_000, 50_000);
    for offset in [0u32, 1, 2, 30, 1000] {
        let w = window_for(now, offset);
        assert!(w.start.instant_value() < w.end.instant_value());
        assert_eq!(w.end.instant_value() - w.start.instant_value(), SECONDS_PER_DAY as i128);
        assert_eq!(w.start, reading(739_000 - offset as i64, 0));
        assert_eq!(w.end, reading(739_001 - offset as i64, 0));
    }
}

#[test]
fn window_for_largest_offset() {
    let now = reading(i32::MIN as i64, 0);
    let w = window_for(now, u32::MAX);
    assert_eq!(w.start.day, i32::MIN as i64 - u32::MAX as i64);
    assert_eq!(w.end.day, w.start.day + 1);
}

#[test]
fn today_contains_now() {
    for second in [0u32, 1, 43_200, 86_399] {
        let now = reading(739_000, second);
        let w = window_for(now, 0);
        assert!(w.includes(&now));
    }
}

#[test]
fn window_excludes_its_end() {
    let now = reading(739_000, 10);
    let w = window_for(now, 0);
    assert!(w.includes(&reading(739_000, 0)));
    assert!(!w.includes(&reading(739_001, 0)));
    assert!(!w.includes(&reading(738_999, 86_399)));
}

#[test]
fn backdate_is_noon_of_the_day() {
    let now = reading(739_000, 100);
    assert_eq!(backdate(now, 0), reading(739_000, NOON));
    assert_eq!(backdate(now, 2), reading(738_998, 43_200));
}

#[test]
fn backdate_within_its_window_only() {
    let now = reading(739_000, 86_399);
    for k in [0u32, 1, 2, 7] {
        let t = backdate(now, k);
        for j in [0u32, 1, 2, 3, 7, 8] {
            assert_eq!(window_for(now, j).includes(&t), j == k);
        }
        let w = window_for(now, k);
        assert!(w.start.instant_value() < t.instant_value());
        assert!(t.instant_value() < w.end.instant_value());
    }
}

#[test]
fn adjacent_windows_meet() {
    let now = reading(739_000, 5);
    let a: Window = window_for(now, 3);
    let b: Window = window_for(now, 2);
    assert_eq!(a.end, b.start);
}
