use cjdnstool::log::{
    render_entry, render_entry_with, subscribe_request, subscription_stream, watch_step,
    EntryError, LogEntry, Verbosity, WatchAction, WatchEvent,
};

fn entry(time: i64, line: i64) -> LogEntry {
    LogEntry {
        time: Ok(time),
        level: Ok("INFO".to_string()),
        file: Ok("CryptoAuth.c".to_string()),
        line: Ok(line),
        message: Ok("hello world".to_string()),
    }
}

#[test]
fn verbosity_names() {
    assert_eq!(Verbosity::Keys.as_str(), "KEYS");
    assert_eq!(Verbosity::Debug.as_str(), "DEBUG");
    assert_eq!(Verbosity::Info.as_str(), "INFO");
    assert_eq!(Verbosity::Warn.as_str(), "WARN");
    assert_eq!(Verbosity::Error.as_str(), "ERROR");
    assert_eq!(Verbosity::Critical.as_str(), "CRITICAL");
}

#[test]
fn subscribe_request_passes_filters() {
    let r = subscribe_request(Some(Verbosity::Debug), Some("Pathfinder.c".to_string()), Some(42));
    assert_eq!(r.level, Some("DEBUG"));
    assert_eq!(r.file.as_deref(), Some("Pathfinder.c"));
    assert_eq!(r.line, Some(42));
    let r = subscribe_request(None, None, None);
    assert_eq!(r.level, None);
    assert_eq!(r.file, None);
    assert_eq!(r.line, None);
}

#[test]
fn subscribe_line_keeps_bits() {
    let r = subscribe_request(None, None, Some(u64::MAX));
    assert_eq!(r.line, Some(-1));
}

#[test]
fn render_with_unix_time() {
    let t = render_entry(entry(1_700_000_000, 123), false).unwrap();
    assert_eq!(t, "1700000000 INFO CryptoAuth.c:123 hello world");
}

#[test]
fn render_with_human_time() {
    let t = render_entry(entry(1_700_000_000, 123), true).unwrap();
    assert_eq!(t, "2023-11-14T22:13:20Z INFO CryptoAuth.c:123 hello world");
    let t = render_entry(entry(0, 1), true).unwrap();
    assert_eq!(t, "1970-01-01T00:00:00Z INFO CryptoAuth.c:1 hello world");
}

#[test]
fn render_out_of_range_human_time_falls_back() {
    let t = render_entry(entry(i64::MAX, -5), true).unwrap();
    assert_eq!(t, "9223372036854775807 INFO CryptoAuth.c:-5 hello world");
    let t = render_entry(entry(i64::MIN, 0), true).unwrap();
    assert_eq!(t, "-9223372036854775808 INFO CryptoAuth.c:0 hello world");
}

#[test]
fn render_with_given_time_text() {
    let t = render_entry_with(entry(5, 6), Some("then".to_string())).unwrap();
    assert_eq!(t, "then INFO CryptoAuth.c:6 hello world");
}

#[test]
fn render_reports_first_unreadable_field() {
    let mut e = entry(1, 2);
    e.level = Err("not a string".to_string());
    e.message = Err("missing".to_string());
    match render_entry(e, false) {
        Err(err) => {
            assert!(matches!(err, EntryError::Level(_)));
            assert_eq!(err.message(), "\"level\": not a string");
        }
        Ok(_) => panic!("expected an error"),
    }
    let mut e = entry(1, 2);
    e.time = Err("missing".to_string());
    e.line = Err("missing".to_string());
    match render_entry(e, true) {
        Err(err) => assert_eq!(err.message(), "\"time\": missing"),
        Ok(_) => panic!("expected an error"),
    }
}

#[test]
fn entry_error_messages() {
    assert_eq!(EntryError::File("x".to_string()).message(), "\"file\": x");
    assert_eq!(EntryError::Line("y".to_string()).message(), "\"line\": y");
    assert_eq!(EntryError::Message("z".to_string()).message(), "\"message\": z");
}

#[test]
fn interrupt_stops_after_unsubscribing() {
    match watch_step(WatchEvent::Interrupted(Ok(())), false) {
        WatchAction::Stop { unsubscribe, outcome } => {
            assert!(unsubscribe);
            assert_eq!(outcome, Ok(()));
        }
        other => panic!("unexpected {:?}", other),
    }
    match watch_step(WatchEvent::Interrupted(Err("no tty".to_string())), false) {
        WatchAction::Stop { unsubscribe, outcome } => {
            assert!(unsubscribe);
            assert_eq!(outcome, Err("Failed to listen to Ctrl+C: no tty".to_string()));
        }
        other => panic!("unexpected {:?}", other),
    }
}

#[test]
fn closed_stream_stops_without_unsubscribing() {
    match watch_step(WatchEvent::StreamClosed, true) {
        WatchAction::Stop { unsubscribe, outcome } => {
            assert!(!unsubscribe);
            assert_eq!(outcome, Ok(()));
        }
        other => panic!("unexpected {:?}", other),
    }
}

#[test]
fn ping_is_planned_every_ten_seconds() {
    assert!(matches!(
        watch_step(WatchEvent::PingDue, false),
        WatchAction::Ping { next_after_secs: 10 }
    ));
}

#[test]
fn entries_are_printed_or_reported() {
    match watch_step(WatchEvent::Entry(entry(1_700_000_000, 9)), true) {
        WatchAction::Print(t) => assert_eq!(t, "2023-11-14T22:13:20Z INFO CryptoAuth.c:9 hello world"),
        other => panic!("unexpected {:?}", other),
    }
    let mut e = entry(1, 2);
    e.file = Err("bad".to_string());
    assert!(matches!(
        watch_step(WatchEvent::Entry(e), false),
        WatchAction::ReportEntryError(EntryError::File(_))
    ));
}

#[test]
fn human_time_covers_chrono_range() {
    let max = 8_210_266_876_799_i64;
    let min = -8_334_601_228_800_i64;
    let t = render_entry(entry(max, 1), true).unwrap();
    assert!(!t.starts_with("8210266876799 "));
    assert!(t.contains("12-31T23:59:59Z"));
    let t = render_entry(entry(max + 1, 1), true).unwrap();
    assert_eq!(t, "8210266876800 INFO CryptoAuth.c:1 hello world");
    let t = render_entry(entry(min, 1), true).unwrap();
    assert_eq!(t, "-262143-01-01T00:00:00Z INFO CryptoAuth.c:1 hello world");
    let t = render_entry(entry(min - 1, 1), true).unwrap();
    assert_eq!(t, "-8334601228801 INFO CryptoAuth.c:1 hello world");
}

#[test]
fn subscription_needs_stream_then_id() {
    assert_eq!(
        subscription_stream(false, Err("bad".to_string())),
        Err("Admin log stream ID is missing".to_string())
    );
    assert_eq!(
        subscription_stream(true, Err("not a string".to_string())),
        Err("Failed to parse stream ID: not a string".to_string())
    );
    assert_eq!(subscription_stream(true, Ok("0000".to_string())), Ok("0000".to_string()));
}
