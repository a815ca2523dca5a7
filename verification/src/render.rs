//! The rendering of an error: one line for the code, where it was built and
//! the message, then the stack trace, then the cause. The order of the
//! sections is fixed: the trace always comes before the cause.

use vstd::prelude::*;
use vstd::string::*;
use crate::cause::{Cause, CauseView};
use crate::location::{Location, LocationView};
use crate::text::{decimal, decimal_text, starts_with, trim_end, trimmed};
use crate::trace::{CapturedTrace, TraceView};

verus! {

/// What is behind an optional reference, as a view.
pub open spec fn viewed<V: View>(value: Option<&V>) -> Option<V::V> {
    match value {
        Some(inner) => Some(inner@),
        None => None,
    }
}

/// What an optional value holds, as a view.
pub open spec fn held<V: View>(value: Option<V>) -> Option<V::V> {
    match value {
        Some(inner) => Some(inner@),
        None => None,
    }
}

/// The code's type and the code, joined by a colon.
pub open spec fn head(code_type: Seq<char>, code: Seq<char>) -> Seq<char> {
    code_type + ":"@ + code
}

/// The place where the error was built; nothing where none was recorded.
pub open spec fn location_section(location: Option<LocationView>) -> Seq<char> {
    match location {
        Some(place) => " at:["@ + place.file + ":"@ + decimal(place.line as nat) + "]"@,
        None => Seq::empty(),
    }
}

/// The message; nothing where it is empty.
pub open spec fn message_section(msg: Seq<char>) -> Seq<char> {
    if msg.len() > 0 {
        ", msg:"@ + msg
    } else {
        Seq::empty()
    }
}

/// The trace under its header, white space at its end cut off. A text that
/// brings the header in lower case has its first letter raised; any other
/// text gets a header line of its own.
pub open spec fn trace_body(text: Seq<char>) -> Seq<char> {
    if "stack backtrace:"@.is_prefix_of(text) {
        trimmed("S"@ + text.skip(1))
    } else {
        "Stack backtrace:\n"@ + trimmed(text)
    }
}

/// The stack trace on lines of its own; nothing where none was taken or the
/// capture did not succeed.
pub open spec fn trace_section(trace: Option<TraceView>) -> Seq<char> {
    match trace {
        Some(taken) => if taken.captured {
            "\n"@ + trace_body(taken.text)
        } else {
            Seq::empty()
        },
        None => Seq::empty(),
    }
}

/// The cause's debug rendering on a line of its own; nothing without a
/// cause.
pub open spec fn cause_section(cause: Option<CauseView>) -> Seq<char> {
    match cause {
        Some(earlier) => "\nCaused by: "@ + earlier.debug,
        None => Seq::empty(),
    }
}

/// The whole rendering of an error whose code is of the type named
/// `code_type` and renders as `code`.
pub open spec fn rendering(
    code_type: Seq<char>,
    code: Seq<char>,
    location: Option<LocationView>,
    msg: Seq<char>,
    trace: Option<TraceView>,
    cause: Option<CauseView>,
) -> Seq<char> {
    head(code_type, code) + location_section(location) + message_section(msg) + trace_section(
        trace,
    ) + cause_section(cause)
}

fn render_location(location: Option<&Location>) -> (out: String)
    ensures
        out@ == location_section(viewed(location)),
{
    let mut out = String::new();
    match location {
        Some(place) => {
            let line = decimal_text(place.line());
            out.append(" at:[");
            out.append(place.file());
            out.append(":");
            out.append(line.as_str());
            out.append("]");
            assert(out@ =~= location_section(viewed(location)));
        },
        None => {},
    }
    out
}

fn render_message(msg: &str) -> (out: String)
    ensures
        out@ == message_section(msg@),
{
    let mut out = String::new();
    if !msg.is_empty() {
        out.append(", msg:");
        out.append(msg);
        assert(out@ =~= message_section(msg@));
    }
    out
}

fn render_trace_body(text: &str) -> (out: String)
    ensures
        out@ == trace_body(text@),
{
    if starts_with(text, "stack backtrace:") {
        proof {
            reveal_strlit("stack backtrace:");
        }
        let length: usize = text.unicode_len();
        let mut raised = String::from_str("S");
        raised.append(text.substring_char(1, length));
        assert(raised@ =~= "S"@ + text@.skip(1));
        String::from_str(trim_end(raised.as_str()))
    } else {
        let mut out = String::from_str("Stack backtrace:\n");
        out.append(trim_end(text));
        out
    }
}

fn render_trace(trace: Option<&CapturedTrace>) -> (out: String)
    ensures
        out@ == trace_section(viewed(trace)),
{
    let mut out = String::new();
    match trace {
        Some(taken) => {
            if taken.is_captured() {
                let body = render_trace_body(taken.text());
                out.append("\n");
                out.append(body.as_str());
                assert(out@ =~= trace_section(viewed(trace)));
            }
        },
        None => {},
    }
    out
}

fn render_cause(cause: Option<&Cause>) -> (out: String)
    ensures
        out@ == cause_section(viewed(cause)),
{
    let mut out = String::new();
    match cause {
        Some(earlier) => {
            out.append("\nCaused by: ");
            out.append(earlier.debug());
            assert(out@ =~= cause_section(viewed(cause)));
        },
        None => {},
    }
    out
}

/// Renders an error from its parts. `code_type` names the type of the code
/// and `code` is the code's debug rendering.
pub fn render(
    code_type: &str,
    code: &str,
    location: Option<&Location>,
    msg: &str,
    trace: Option<&CapturedTrace>,
    cause: Option<&Cause>,
) -> (out: String)
    ensures
        out@ == rendering(
            code_type@,
            code@,
            viewed(location),
            msg@,
            viewed(trace),
            viewed(cause),
        ),
{
    let mut out = String::from_str(code_type);
    out.append(":");
    out.append(code);
    let location_text = render_location(location);
    out.append(location_text.as_str());
    let message_text = render_message(msg);
    out.append(message_text.as_str());
    let trace_text = render_trace(trace);
    out.append(trace_text.as_str());
    let cause_text = render_cause(cause);
    out.append(cause_text.as_str());
    out
}

} // verus!
