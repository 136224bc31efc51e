use clipboard_watch::commands::greet;
use clipboard_watch::detector::ClipboardEvent;
use clipboard_watch::detector::ClipboardSnapshot;
use clipboard_watch::detector::Reading;
use clipboard_watch::fingerprint::get_clipboard_content_hash;
use clipboard_watch::poller::classify;
use clipboard_watch::poller::poll;
use clipboard_watch::poller::start;
use clipboard_watch::poller::POLL_INTERVAL_SECS;

fn polled(snapshot: &mut ClipboardSnapshot, read: Result<&str, &str>) -> Option<(ClipboardEvent, String)> {
    poll(snapshot, read).map(|notice| (notice.event, notice.line))
}

#[test]
fn end_to_end_scenario() {
    let mut snapshot = start(Ok(""));
    assert!(snapshot.is_empty());
    assert_eq!(
        polled(&mut snapshot, Ok("hello")),
        Some((ClipboardEvent::Changed, String::from("Clipboard content changed: hello")))
    );
    assert_eq!(polled(&mut snapshot, Ok("hello")), None);
    assert_eq!(
        polled(&mut snapshot, Ok("")),
        Some((ClipboardEvent::Cleared, String::from("Clipboard content cleared")))
    );
    assert_eq!(
        polled(&mut snapshot, Ok("world")),
        Some((ClipboardEvent::Changed, String::from("Clipboard content changed: world")))
    );
    assert_eq!(snapshot.fingerprint(), Some(get_clipboard_content_hash("world")));
}

#[test]
fn end_to_end_scenario_polled_from_the_first_read() {
    let mut snapshot = ClipboardSnapshot::empty();
    let reads = ["", "hello", "hello", "", "world"];
    let mut lines: Vec<Option<String>> = Vec::new();
    for read in reads {
        lines.push(poll(&mut snapshot, Ok(read)).map(|notice| notice.line));
    }
    assert_eq!(
        lines,
        vec![
            None,
            Some(String::from("Clipboard content changed: hello")),
            None,
            Some(String::from("Clipboard content cleared")),
            Some(String::from("Clipboard content changed: world")),
        ]
    );
}

#[test]
fn start_remembers_the_first_content_silently() {
    let mut snapshot = start(Ok("hello"));
    assert_eq!(snapshot.fingerprint(), Some(get_clipboard_content_hash("hello")));
    assert_eq!(polled(&mut snapshot, Ok("hello")), None);
}

#[test]
fn start_after_a_failed_read_is_empty() {
    let mut snapshot = start(Err("clipboard unavailable"));
    assert!(snapshot.is_empty());
    assert_eq!(polled(&mut snapshot, Err("clipboard unavailable")), None);
    assert_eq!(
        polled(&mut snapshot, Ok("hello")),
        Some((ClipboardEvent::Changed, String::from("Clipboard content changed: hello")))
    );
}

#[test]
fn failed_read_is_reported_with_its_detail() {
    let mut snapshot = start(Ok("hello"));
    assert_eq!(
        polled(&mut snapshot, Err("permission denied")),
        Some((
            ClipboardEvent::ReadFailed,
            String::from("Failed to read clipboard content: permission denied")
        ))
    );
    assert!(snapshot.is_empty());
    assert_eq!(polled(&mut snapshot, Err("permission denied")), None);
    assert_eq!(polled(&mut snapshot, Err("something else")), None);
    assert_eq!(
        polled(&mut snapshot, Ok("hello")),
        Some((ClipboardEvent::Changed, String::from("Clipboard content changed: hello")))
    );
}

#[test]
fn content_then_empty_then_failure_clears_once() {
    let mut snapshot = start(Ok("x"));
    assert_eq!(
        polled(&mut snapshot, Ok("")),
        Some((ClipboardEvent::Cleared, String::from("Clipboard content cleared")))
    );
    assert_eq!(polled(&mut snapshot, Err("gone")), None);
    assert!(snapshot.is_empty());
}

#[test]
fn failed_read_then_empty_content_is_silent() {
    let mut snapshot = start(Ok("hello"));
    assert!(poll(&mut snapshot, Err("gone")).is_some());
    assert_eq!(polled(&mut snapshot, Ok("")), None);
    assert!(snapshot.is_empty());
}

#[test]
fn classify_tells_the_three_readings_apart() {
    assert_eq!(classify(Ok("")), Reading::Empty);
    assert_eq!(classify(Ok("hello")), Reading::Text(get_clipboard_content_hash("hello")));
    assert_eq!(classify(Err("hello")), Reading::Failed);
    assert_eq!(classify(Err("")), Reading::Failed);
}

#[test]
fn lines_are_exact() {
    assert_eq!(ClipboardEvent::Changed.line("a b\nc"), "Clipboard content changed: a b\nc");
    assert_eq!(ClipboardEvent::Changed.line(""), "Clipboard content changed: ");
    assert_eq!(ClipboardEvent::Cleared.line("ignored"), "Clipboard content cleared");
    assert_eq!(
        ClipboardEvent::ReadFailed.line("no text"),
        "Failed to read clipboard content: no text"
    );
}

#[test]
fn only_failures_go_to_the_error_stream() {
    assert!(ClipboardEvent::ReadFailed.is_error());
    assert!(!ClipboardEvent::Changed.is_error());
    assert!(!ClipboardEvent::Cleared.is_error());
}

#[test]
fn polls_once_per_second() {
    assert_eq!(POLL_INTERVAL_SECS, 1);
}

#[test]
fn greet_formats_the_name() {
    assert_eq!(greet("World"), "Hello, World! You've been greeted from Rust!");
    assert_eq!(greet(""), "Hello, ! You've been greeted from Rust!");
    assert_eq!(greet("Zoë"), "Hello, Zoë! You've been greeted from Rust!");
}
