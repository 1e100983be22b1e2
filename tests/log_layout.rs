use bootstrap::error::DecryptError;
use bootstrap::log::{
    decimal_text, level_text, same_text, Level, LocalTime, Segment, Timer, Tone, Tracer, TracerVisitor,
};
use bootstrap::panic::{thread_number_text, trim_end_all, trim_start_all, Panic, PanicLocation};

fn text(segs: &[Segment]) -> String {
    segs.iter().map(|s| s.text.as_str()).collect()
}

#[test]
fn event_line_with_spans() {
    let spans = vec!["dirs_setup".to_string(), "input".to_string()];
    let segs = Tracer::format_event(
        "20.10.2015 18:39:36",
        Level::Info,
        "bootstrap",
        &spans,
        Some("src/main.rs"),
        Some(37),
        Some("Logger initialized"),
    );
    assert_eq!(
        text(&segs),
        "20.10.2015 18:39:36 ∥ INFO ∥ bootstrap::{dirs_setup, input} (src/main.rs:37): Logger initialized\n"
    );
    assert_eq!(segs[0].tone, Tone::Dimmed);
    assert_eq!(segs[2].tone, Tone::Separator);
    assert_eq!(segs[4].tone, Tone::Level(Level::Info));
    assert_eq!(segs[8].tone, Tone::Dimmed);
    assert_eq!(segs[9].tone, Tone::Message);
    assert_eq!(segs.len(), 11);
}

#[test]
fn event_line_without_spans_or_place() {
    let segs = Tracer::format_event("t", Level::Error, "x", &vec![], None, None, None);
    assert_eq!(text(&segs), "t ∥ ERROR ∥ x (/src/{unknown}.rs:?): \n");
}

#[test]
fn origin_with_one_span() {
    let o = Tracer::origin("bootstrap::log", &vec!["a".to_string()], Some("src/log/mod.rs"), Some(16));
    assert_eq!(o, "bootstrap::log::{a} (src/log/mod.rs:16): ");
}

#[test]
fn level_labels() {
    assert_eq!(level_text(Level::Trace), "TRACE");
    assert_eq!(level_text(Level::Debug), "DEBUG");
    assert_eq!(level_text(Level::Info), "INFO");
    assert_eq!(level_text(Level::Warn), "WARN");
    assert_eq!(level_text(Level::Error), "ERROR");
}

#[test]
fn decimal_numbers() {
    assert_eq!(decimal_text(0), "0");
    assert_eq!(decimal_text(7), "7");
    assert_eq!(decimal_text(10), "10");
    assert_eq!(decimal_text(1905), "1905");
    assert_eq!(decimal_text(u32::MAX), "4294967295");
}

#[test]
fn visitor_keeps_only_the_message() {
    let mut v = TracerVisitor::new();
    assert_eq!(v.msg, None);
    v.record_str("target", "ignored");
    assert_eq!(v.msg, None);
    v.record_str("message", "hello");
    assert_eq!(v.msg, Some("hello".to_string()));
    v.record_debug("messages", "no".to_string());
    assert_eq!(v.msg, Some("hello".to_string()));
    v.record_debug("message", "\"dbg\"".to_string());
    assert_eq!(v.msg, Some("\"dbg\"".to_string()));
}

#[test]
fn same_text_compares_whole_texts() {
    assert!(same_text("message", "message"));
    assert!(!same_text("message", "messag"));
    assert!(!same_text("Message", "message"));
    assert!(same_text("", ""));
}

#[test]
fn panic_report_with_location() {
    let loc = PanicLocation { file: "src/log/mod.rs".to_string(), line: 16, column: 5 };
    let segs = Panic::display(Some("test"), Some(&loc), Some("main"), "ThreadId(1)");
    assert_eq!(
        text(&segs),
        "Unexpected error occured! The application panicked (crashed).\n\
         Message:   test\n\
         Location: {\n   file:   src/log/mod.rs\n   line:   16\n   column: 5\n}\n\
         Thread:    main (id: 1)\n"
    );
    assert_eq!(segs[0].tone, Tone::Alert);
    assert_eq!(segs[3].tone, Tone::Payload);
    assert_eq!(segs[6].tone, Tone::Place);
}

#[test]
fn panic_report_without_details() {
    let segs = Panic::display(None, None, None, "ThreadId(12)");
    assert_eq!(
        text(&segs),
        "Unexpected error occured! The application panicked (crashed).\n\
         Message:   <???>\n\
         Location: src/{unknown}.rs:??:??\n\
         Thread:    {unknown} (id: 12)\n"
    );
}

#[test]
fn trims_repeat() {
    assert_eq!(trim_start_all("ababc", "ab"), "c");
    assert_eq!(trim_start_all("abc", ""), "abc");
    assert_eq!(trim_end_all("x))", ")"), "x");
    assert_eq!(trim_end_all("", ")"), "");
    assert_eq!(thread_number_text("ThreadId(3)"), "3");
    assert_eq!(thread_number_text("other"), "other");
}

#[test]
fn error_messages_are_secret_free() {
    assert_eq!(DecryptError::AuthenticationFailed.message(), "authentication failed: wrong key or tampered data");
    assert_eq!(DecryptError::Malformed.message(), "input is not a recognisable encrypted file");
}

#[test]
fn stamp_pads_to_two_digits() {
    let t = LocalTime { year: 2024, month: 6, day: 4, hour: 5, minute: 0, second: 9 };
    assert_eq!(Timer::stamp(&t), "04.06.2024 05:00:09");
    let t = LocalTime { year: 2015, month: 10, day: 20, hour: 18, minute: 39, second: 36 };
    assert_eq!(Timer::stamp(&t), "20.10.2015 18:39:36");
}

#[test]
fn stamp_year_outside_four_digits() {
    let t = LocalTime { year: 7, month: 1, day: 1, hour: 0, minute: 0, second: 0 };
    assert_eq!(Timer::stamp(&t), "01.01.0007 00:00:00");
    let t = LocalTime { year: 12345, month: 12, day: 31, hour: 23, minute: 59, second: 59 };
    assert_eq!(Timer::stamp(&t), "31.12.+12345 23:59:59");
    let t = LocalTime { year: -44, month: 3, day: 15, hour: 12, minute: 0, second: 0 };
    assert_eq!(Timer::stamp(&t), "15.03.-0044 12:00:00");
}

#[test]
fn stamp_of_now_has_the_layout() {
    let s = Timer::format_time();
    let chars: Vec<char> = s.chars().collect();
    assert_eq!(chars.len(), 19);
    assert_eq!(chars[2], '.');
    assert_eq!(chars[5], '.');
    assert_eq!(chars[10], ' ');
    assert_eq!(chars[13], ':');
    assert_eq!(chars[16], ':');
}
