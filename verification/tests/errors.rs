use jbig2dec::text::append_decimal;
use jbig2dec::{DiagnosticsSink, Error, Jbig2Options, Jbig2Severity, OpenFlag};

#[test]
fn messages_name_what_failed() {
    let e = Error::CreateContextFailed(String::from("out of memory"));
    assert_eq!(e.message(), "create context failed: out of memory");
    let e = Error::IncompletePage(String::from("segment 3 truncated"));
    assert_eq!(e.message(), "incomplete page: segment 3 truncated");
    assert_eq!(Error::IncompletePage(String::new()).message(), "incomplete page: ");
    assert_eq!(Error::CreateContextFailed(String::new()).message(), "create context failed: ");
}

#[test]
fn io_errors_speak_for_themselves() {
    let inner = std::io::Error::new(std::io::ErrorKind::UnexpectedEof, "stream ended early");
    let e = Error::from(inner);
    assert!(matches!(e, Error::Io(_)));
    assert_eq!(e.message(), "stream ended early");
    assert_eq!(e.source().map(|c| c.kind()), Some(std::io::ErrorKind::UnexpectedEof));
}

#[test]
fn engine_failures_have_no_source() {
    assert!(Error::CreateContextFailed(String::new()).source().is_none());
    assert!(Error::IncompletePage(String::from("x")).source().is_none());
}

#[test]
fn default_mode_is_file() {
    assert_eq!(OpenFlag::default(), OpenFlag::File);
}

#[test]
fn modes_select_engine_options() {
    assert_eq!(OpenFlag::File.options(), Jbig2Options::JBIG2_OPTIONS_DEFAULT);
    assert_eq!(OpenFlag::Embedded.options(), Jbig2Options::JBIG2_OPTIONS_EMBEDDED);
    assert_eq!(Jbig2Options::JBIG2_OPTIONS_DEFAULT.code(), 0);
    assert_eq!(Jbig2Options::JBIG2_OPTIONS_EMBEDDED.code(), 1);
}

#[test]
fn severities_have_the_engine_s_codes() {
    assert_eq!(Jbig2Severity::JBIG2_SEVERITY_DEBUG.code(), 0);
    assert_eq!(Jbig2Severity::JBIG2_SEVERITY_INFO.code(), 1);
    assert_eq!(Jbig2Severity::JBIG2_SEVERITY_WARNING.code(), 2);
    assert_eq!(Jbig2Severity::JBIG2_SEVERITY_FATAL.code(), 3);
    for code in 0..4u32 {
        assert_eq!(Jbig2Severity::from_code(code).map(|s| s.code()), Some(code));
    }
    assert_eq!(Jbig2Severity::from_code(4), None);
    assert_eq!(Jbig2Severity::from_code(u32::MAX), None);
}

#[test]
fn the_sink_keeps_the_last_message_only() {
    let mut sink = DiagnosticsSink::new();
    assert!(sink.is_empty());
    sink.record(Some("one"), Jbig2Severity::JBIG2_SEVERITY_DEBUG, 0);
    sink.record(Some("two"), Jbig2Severity::JBIG2_SEVERITY_FATAL, 7);
    assert!(!sink.is_empty());
    assert_eq!(sink.take(), "two");
    assert!(sink.is_empty());
    assert_eq!(sink.take(), "");
}

#[test]
fn an_event_without_text_changes_nothing() {
    let mut sink = DiagnosticsSink::new();
    sink.record(None, Jbig2Severity::JBIG2_SEVERITY_FATAL, 1);
    assert!(sink.is_empty());
    sink.record(Some("kept"), Jbig2Severity::JBIG2_SEVERITY_INFO, 1);
    sink.record(None, Jbig2Severity::JBIG2_SEVERITY_FATAL, 2);
    assert_eq!(sink.take(), "kept");
}

#[test]
fn an_empty_message_is_still_a_message() {
    let mut sink = DiagnosticsSink::new();
    sink.record(Some("before"), Jbig2Severity::JBIG2_SEVERITY_INFO, 1);
    sink.record(Some(""), Jbig2Severity::JBIG2_SEVERITY_INFO, 1);
    assert!(!sink.is_empty());
    assert_eq!(sink.take(), "");
}

#[test]
fn numbers_are_written_in_decimal() {
    assert_eq!(append_decimal(String::new(), 0), "0");
    assert_eq!(append_decimal(String::new(), 9), "9");
    assert_eq!(append_decimal(String::new(), 10), "10");
    assert_eq!(append_decimal(String::from("n = "), 4_294_967_295), "n = 4294967295");
    assert_eq!(append_decimal(String::from("x"), 1_000_000), "x1000000");
}
