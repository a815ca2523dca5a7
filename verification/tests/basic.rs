use sfo_result::render::render;
use sfo_result::text::{decimal_text, starts_with, trim_end};
use sfo_result::{CapturedTrace, Cause, Location};

#[derive(Copy, Clone, Debug, Eq, PartialEq)]
pub enum TestCode {
    Test1,
    Test2,
}

impl Default for TestCode {
    fn default() -> Self {
        TestCode::Test1
    }
}

pub type Error = sfo_result::Error<TestCode, false>;
pub type TracedError = sfo_result::Error<TestCode, true>;

const CODE_TYPE: &str = "basic::TestCode";

/// A foreign failure that renders the same for debug and for display.
struct Denied;

impl std::fmt::Debug for Denied {
    fn fmt(&self, f: &mut std::fmt::Formatter<'_>) -> std::fmt::Result {
        f.write_str("permission denied")
    }
}

impl std::fmt::Display for Denied {
    fn fmt(&self, f: &mut std::fmt::Formatter<'_>) -> std::fmt::Result {
        f.write_str("permission denied")
    }
}

impl std::error::Error for Denied {}

fn cause_of(e: &dyn std::error::Error) -> Cause {
    Cause::new(format!("{:?}", e), format!("{}", e), e.source().map(cause_of))
}

#[test]
fn test() {
    let error: sfo_result::Error<i32, false> =
        sfo_result::Error::new(1, "test".to_string(), "tests/basic.rs", 46);
    println!("{:?}", error.render("i32"));

    let error: sfo_result::Error<i32, false> =
        sfo_result::Error::new(1, format!("{}", format!("test")), "tests/basic.rs", 50);
    println!("{:?}", error.render("i32"));

    let error = Error::from((TestCode::Test1, "test".to_string(), error.into_cause("i32")));
    println!("{:?}", error.render(CODE_TYPE));
    assert_eq!(
        error.render(CODE_TYPE),
        "basic::TestCode:Test1, msg:test\nCaused by: i32:1 at:[tests/basic.rs:50], msg:test"
    );
}

#[test]
fn new_keeps_code_and_message() {
    let error = Error::new(TestCode::Test2, "disk full".to_string(), "src/store.rs", 7);
    assert_eq!(error.code(), TestCode::Test2);
    assert_eq!(error.msg(), "disk full");
    let place = error.location().unwrap();
    assert_eq!(place.file(), "src/store.rs");
    assert_eq!(place.line(), 7);
    assert!(error.source().is_none());
}

#[test]
fn new_renders_code_location_and_message() {
    let error = Error::new(TestCode::Test2, "disk full".to_string(), "src/store.rs", 7);
    assert_eq!(error.render(CODE_TYPE), "basic::TestCode:Test2 at:[src/store.rs:7], msg:disk full");
}

#[test]
fn empty_message_renders_no_message_section() {
    let error = Error::new(TestCode::Test1, String::new(), "src/store.rs", 7);
    assert_eq!(error.msg(), "");
    let text = error.render(CODE_TYPE);
    assert_eq!(text, "basic::TestCode:Test1 at:[src/store.rs:7]");
    assert!(!text.contains(", msg:"));
}

#[test]
fn no_location_renders_no_location_section() {
    let error = Error::with_code(TestCode::Test2, "late".to_string());
    assert!(error.location().is_none());
    let text = error.render(CODE_TYPE);
    assert_eq!(text, "basic::TestCode:Test2, msg:late");
    assert!(!text.contains(" at:["));
}

#[test]
fn cause_is_rendered_verbatim() {
    let cause = Cause::new("Broken { pipe: 3 }".to_string(), "broken pipe".to_string(), None);
    let error = Error::from((TestCode::Test2, "sending".to_string(), cause));
    let text = error.render(CODE_TYPE);
    assert_eq!(text, "basic::TestCode:Test2, msg:sending\nCaused by: Broken { pipe: 3 }");
    assert!(text.contains("Caused by: Broken { pipe: 3 }"));
    assert_eq!(error.source().unwrap().debug(), "Broken { pipe: 3 }");
    assert_eq!(error.source().unwrap().display(), "broken pipe");
}

#[test]
fn untraced_error_renders_no_trace() {
    let error = Error::new(TestCode::Test1, "x".to_string(), "a.rs", 1);
    assert!(!error.render(CODE_TYPE).contains("Stack backtrace:"));
    let error = Error::from("y".to_string());
    assert!(!error.render(CODE_TYPE).contains("Stack backtrace:"));
}

#[test]
fn traced_error_holds_a_trace() {
    let error = TracedError::new(TestCode::Test1, "x".to_string(), "a.rs", 1);
    let trace = error.backtrace().unwrap();
    let text = error.render(CODE_TYPE);
    assert!(text.starts_with("basic::TestCode:Test1 at:[a.rs:1], msg:x"));
    if trace.is_captured() {
        assert!(text.starts_with("basic::TestCode:Test1 at:[a.rs:1], msg:x\nStack backtrace:"));
        assert!(!trace.text().is_empty());
        assert_eq!(text.trim_end(), text);
    } else {
        assert_eq!(text, "basic::TestCode:Test1 at:[a.rs:1], msg:x");
    }
}

#[test]
fn traced_error_renders_trace_before_cause() {
    let cause = Cause::new("gone".to_string(), "gone".to_string(), None);
    let error = TracedError::from((TestCode::Test2, "m".to_string(), cause, "b.rs", 9));
    let text = error.render(CODE_TYPE);
    assert!(text.ends_with("\nCaused by: gone"));
    if error.backtrace().unwrap().is_captured() {
        let trace_at = text.find("\nStack backtrace:").unwrap();
        let cause_at = text.rfind("\nCaused by: gone").unwrap();
        assert!(trace_at < cause_at);
    }
}

#[test]
fn into_err_wraps_foreign_error() {
    let wrap = |e: Denied| Error::from((TestCode::Test2, "ctx".to_string(), cause_of(&e), "src/cfg.rs", 31));
    let error = wrap(Denied);
    assert_eq!(error.code(), TestCode::Test2);
    assert_eq!(error.msg(), "ctx");
    assert_eq!(error.source().unwrap().debug(), format!("{:?}", Denied));
    assert_eq!(error.source().unwrap().display(), format!("{}", Denied));
    assert_eq!(error.location().unwrap().file(), "src/cfg.rs");
    assert_eq!(error.location().unwrap().line(), 31);
}

#[test]
fn into_err_with_borrowed_message() {
    let error = Error::from((TestCode::Test1, "ctx", cause_of(&Denied), "src/cfg.rs", 32));
    assert_eq!(error.msg(), "ctx");
    assert_eq!(
        error.render(CODE_TYPE),
        "basic::TestCode:Test1 at:[src/cfg.rs:32], msg:ctx\nCaused by: permission denied"
    );
}

#[test]
fn restored_keeps_code_and_message() {
    let cause = Cause::new("gone".to_string(), "gone".to_string(), None);
    let error = TracedError::from((TestCode::Test2, "m".to_string(), cause, "b.rs", 9));
    let place = error.location().map(|at| Location::new(at.file(), at.line()));
    let back = TracedError::restored(error.code(), error.msg().to_string(), place);
    assert_eq!(back.code(), TestCode::Test2);
    assert_eq!(back.msg(), "m");
    assert_eq!(back.location().unwrap().file(), "b.rs");
    assert_eq!(back.location().unwrap().line(), 9);
    assert!(back.source().is_none());
    assert!(back.backtrace().is_none());
    assert_eq!(back.render(CODE_TYPE), "basic::TestCode:Test2 at:[b.rs:9], msg:m");
}

#[test]
fn disk_full_scenario() {
    let error = Error::with_code(TestCode::Test1, "disk full".to_string());
    assert_eq!(error.render(CODE_TYPE), "basic::TestCode:Test1, msg:disk full");
    assert_eq!(error.render_with("TestCode", "Test1"), "TestCode:Test1, msg:disk full");
}

#[test]
fn permission_denied_scenario() {
    let wrap = |e: Denied| {
        Error::from((TestCode::Test2, "opening config".to_string(), cause_of(&e), "src/cfg.rs", 4))
    };
    let text = wrap(Denied).render("TestCode");
    assert!(text.contains("TestCode:Test2"));
    assert!(text.contains("Caused by: permission denied"));
    assert!(text.contains(", msg:opening config"));
}

#[test]
fn io_error_cause_shows_its_debug_rendering() {
    let denied = std::io::Error::from(std::io::ErrorKind::PermissionDenied);
    let error = Error::from((TestCode::Test2, "opening config".to_string(), cause_of(&denied)));
    let text = error.render("TestCode");
    assert_eq!(text, format!("TestCode:Test2, msg:opening config\nCaused by: {:?}", denied));
    assert_eq!(error.source().unwrap().display(), "permission denied");
}

#[test]
fn from_string_takes_default_code() {
    let error = Error::from("no code".to_string());
    assert_eq!(error.code(), TestCode::Test1);
    assert_eq!(error.msg(), "no code");
    assert!(error.location().is_none());
    assert!(error.source().is_none());
    assert_eq!(error.render(CODE_TYPE), "basic::TestCode:Test1, msg:no code");
}

#[test]
fn cause_chain_is_kept_link_by_link() {
    let oldest = Cause::new("oldest".to_string(), "o".to_string(), None);
    let middle = Error::from((TestCode::Test1, "middle".to_string(), oldest));
    let newest = Error::from((TestCode::Test2, "newest".to_string(), middle.into_cause(CODE_TYPE)));
    let first = newest.source().unwrap();
    assert_eq!(first.debug(), "basic::TestCode:Test1, msg:middle\nCaused by: oldest");
    assert_eq!(first.display(), first.debug());
    let second = first.source().unwrap();
    assert_eq!(second.debug(), "oldest");
    assert_eq!(second.display(), "o");
    assert!(second.source().is_none());
    assert_eq!(
        newest.render(CODE_TYPE),
        "basic::TestCode:Test2, msg:newest\nCaused by: basic::TestCode:Test1, msg:middle\nCaused by: oldest"
    );
}

#[test]
fn render_puts_every_section_in_order() {
    let place = Location::new("src/main.rs", 120);
    let trace = CapturedTrace::new(true, "   0: main\n   1: start\n".to_string());
    let cause = Cause::new("Timeout(3)".to_string(), "timed out".to_string(), None);
    let text = render("Code", "Slow", Some(&place), "waiting", Some(&trace), Some(&cause));
    assert_eq!(
        text,
        "Code:Slow at:[src/main.rs:120], msg:waiting\nStack backtrace:\n   0: main\n   1: start\nCaused by: Timeout(3)"
    );
}

#[test]
fn render_raises_a_lower_case_header() {
    let trace = CapturedTrace::new(true, "stack backtrace:\n   0: main\n\n \t".to_string());
    let text = render("Code", "Slow", None, "", Some(&trace), None);
    assert_eq!(text, "Code:Slow\nStack backtrace:\n   0: main");
}

#[test]
fn render_skips_a_trace_that_was_not_captured() {
    let trace = CapturedTrace::new(false, "disabled backtrace".to_string());
    assert!(!trace.is_captured());
    assert_eq!(trace.text(), "disabled backtrace");
    let text = render("Code", "Slow", None, "m", Some(&trace), None);
    assert_eq!(text, "Code:Slow, msg:m");
}

#[test]
fn render_keeps_the_header_of_a_blank_trace() {
    let trace = CapturedTrace::new(true, " \n\u{2003}\n".to_string());
    let text = render("Code", "Slow", None, "", Some(&trace), None);
    assert_eq!(text, "Code:Slow\nStack backtrace:\n");
}

#[test]
fn render_with_nothing_optional_is_the_head() {
    assert_eq!(render("u8", "7", None, "", None, None), "u8:7");
}

#[test]
fn decimal_text_writes_numbers() {
    assert_eq!(decimal_text(0), "0");
    assert_eq!(decimal_text(9), "9");
    assert_eq!(decimal_text(10), "10");
    assert_eq!(decimal_text(105), "105");
    assert_eq!(decimal_text(4294967295), "4294967295");
}

#[test]
fn starts_with_compares_prefixes() {
    assert!(starts_with("stack backtrace:\n", "stack backtrace:"));
    assert!(starts_with("abc", ""));
    assert!(starts_with("", ""));
    assert!(!starts_with("Stack backtrace:", "stack backtrace:"));
    assert!(!starts_with("stack", "stack backtrace:"));
    assert!(starts_with("héllo", "hé"));
}

#[test]
fn trim_end_cuts_trailing_white_space() {
    assert_eq!(trim_end("a b \n\t "), "a b");
    assert_eq!(trim_end("  a"), "  a");
    assert_eq!(trim_end(""), "");
    assert_eq!(trim_end(" \n"), "");
    assert_eq!(trim_end("x\u{3000}\u{a0}"), "x");
    assert_eq!(trim_end("é \u{2028}"), "é");
}
