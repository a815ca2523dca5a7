//! A stack trace as the error carries it: whether the capture succeeded and
//! the text it gave.

use vstd::prelude::*;

verus! {

/// A stack trace taken when an error was built.
pub struct CapturedTrace {
    captured: bool,
    text: String,
}

/// What a `CapturedTrace` holds.
pub struct TraceView {
    /// Whether the capture succeeded.
    pub captured: bool,
    /// The text of the trace; for a failed capture, the reason.
    pub text: Seq<char>,
}

impl View for CapturedTrace {
    type V = TraceView;

    closed spec fn view(&self) -> TraceView {
        TraceView { captured: self.captured, text: self.text@ }
    }
}

impl CapturedTrace {
    /// A trace with the given outcome and text.
    pub fn new(captured: bool, text: String) -> (trace: Self)
        ensures
            trace@ == (TraceView { captured, text: text@ }),
    {
        CapturedTrace { captured, text }
    }

    /// Whether the capture succeeded.
    pub fn is_captured(&self) -> (captured: bool)
        ensures
            captured == self@.captured,
    {
        self.captured
    }

    /// The text of the trace.
    pub fn text(&self) -> (text: &str)
        ensures
            text@ == self@.text,
    {
        self.text.as_str()
    }
}

/// The stack trace type of std. Nothing inside it is visible here.
#[verifier::external_type_specification]
#[verifier::external_body]
pub struct ExBacktrace(std::backtrace::Backtrace);

/// `Backtrace::force_capture` of std. The trace depends on the machine and
/// on the call stack, so the contract claims nothing of it.
#[verifier::external_body]
fn force_capture() -> (taken: std::backtrace::Backtrace) {
    std::backtrace::Backtrace::force_capture()
}

/// `Backtrace::status` of std, read as whether it is `Captured`. The
/// contract claims nothing of the answer.
#[verifier::external_body]
fn succeeded(taken: &std::backtrace::Backtrace) -> (captured: bool) {
    match taken.status() {
        std::backtrace::BacktraceStatus::Captured => true,
        _ => false,
    }
}

/// The `Display` text of a trace of std. The contract claims nothing of it.
#[verifier::external_body]
fn trace_text(taken: &std::backtrace::Backtrace) -> (text: String) {
    taken.to_string()
}

/// Takes a stack trace here and now.
pub(crate) fn capture_trace() -> (trace: CapturedTrace) {
    let taken = force_capture();
    let captured = succeeded(&taken);
    let text = trace_text(&taken);
    CapturedTrace { captured, text }
}

} // verus!
