//! What holds of every error, whatever it is made of.

use vstd::prelude::*;
use crate::cause::{Cause, CauseView};
use crate::error::{lemma_untraced_holds_no_trace, Error, ErrorView};
use crate::location::{Location, LocationView};
use crate::render::{
    cause_section, head, held, location_section, message_section, rendering, trace_section,
};
use crate::text::{contains, occurs_at};

verus! {

/// A text that is put between two others occurs in the whole.
pub proof fn lemma_part_occurs(before: Seq<char>, part: Seq<char>, after: Seq<char>)
    ensures
        contains(before + part + after, part),
{
    let whole = before + part + after;
    let at = before.len() as int;
    assert(whole.subrange(at, at + part.len()) =~= part);
    assert(occurs_at(whole, part, at));
}

/// An error has the code and the message that it was built with.
pub proof fn lemma_new_keeps_code_and_message<
    T: std::fmt::Debug + Copy + Sync + Send + 'static,
    const TRACE: bool,
>(code: T, msg: String, file: &str, line: u32, e: Error<T, TRACE>, got_code: T, got_msg: &str)
    requires
        call_ensures(Error::<T, TRACE>::new, (code, msg, file, line), e),
        call_ensures(Error::<T, TRACE>::code, (&e,), got_code),
        call_ensures(Error::<T, TRACE>::msg, (&e,), got_msg),
    ensures
        got_code == code,
        got_msg@ == msg@,
{
}

/// Without a message there is no message section: the rendering is made
/// of the other sections alone, and the mark of a message occurs in it
/// only where one of them brings it.
pub proof fn lemma_empty_message_leaves_no_mark<T>(
    e: ErrorView<T>,
    code_type: Seq<char>,
    code: Seq<char>,
)
    requires
        e.msg.len() == 0,
        !contains(
            head(code_type, code) + location_section(e.location) + trace_section(e.trace)
                + cause_section(e.cause),
            ", msg:"@,
        ),
    ensures
        e.rendering(code_type, code) == head(code_type, code) + location_section(e.location)
            + trace_section(e.trace) + cause_section(e.cause),
        !contains(e.rendering(code_type, code), ", msg:"@),
{
    assert(e.rendering(code_type, code) =~= head(code_type, code) + location_section(e.location)
        + trace_section(e.trace) + cause_section(e.cause));
}

/// Without a location there is no location section: the rendering is made
/// of the other sections alone, and the mark of a location occurs in it
/// only where one of them brings it.
pub proof fn lemma_no_location_leaves_no_mark<T>(
    e: ErrorView<T>,
    code_type: Seq<char>,
    code: Seq<char>,
)
    requires
        e.location is None,
        !contains(
            head(code_type, code) + message_section(e.msg) + trace_section(e.trace)
                + cause_section(e.cause),
            " at:["@,
        ),
    ensures
        e.rendering(code_type, code) == head(code_type, code) + message_section(e.msg)
            + trace_section(e.trace) + cause_section(e.cause),
        !contains(e.rendering(code_type, code), " at:["@),
{
    assert(e.rendering(code_type, code) =~= head(code_type, code) + message_section(e.msg)
        + trace_section(e.trace) + cause_section(e.cause));
}

/// Without a trace there is no trace section: the rendering is made of the
/// other sections alone, and the header of a trace occurs in it only where
/// one of them brings it.
pub proof fn lemma_no_trace_leaves_no_header<T>(
    e: ErrorView<T>,
    code_type: Seq<char>,
    code: Seq<char>,
)
    requires
        e.trace is None,
        !contains(
            head(code_type, code) + location_section(e.location) + message_section(e.msg)
                + cause_section(e.cause),
            "Stack backtrace:"@,
        ),
    ensures
        e.rendering(code_type, code) == head(code_type, code) + location_section(e.location)
            + message_section(e.msg) + cause_section(e.cause),
        !contains(e.rendering(code_type, code), "Stack backtrace:"@),
{
    assert(e.rendering(code_type, code) =~= head(code_type, code) + location_section(e.location)
        + message_section(e.msg) + cause_section(e.cause));
}

/// An error of a type that takes no traces never renders one.
pub proof fn lemma_untraced_renders_no_trace<T>(
    e: Error<T, false>,
    code_type: Seq<char>,
    code: Seq<char>,
)
    requires
        !contains(
            head(code_type, code) + location_section(e@.location) + message_section(e@.msg)
                + cause_section(e@.cause),
            "Stack backtrace:"@,
        ),
    ensures
        !contains(e@.rendering(code_type, code), "Stack backtrace:"@),
{
    lemma_untraced_holds_no_trace(e);
    lemma_no_trace_leaves_no_header(e@, code_type, code);
}

/// With a cause, the rendering ends in a line that holds `Caused by: `
/// and then the cause's debug rendering, letter for letter.
pub proof fn lemma_cause_is_rendered<T>(
    e: ErrorView<T>,
    cause: CauseView,
    code_type: Seq<char>,
    code: Seq<char>,
)
    requires
        e.cause == Some(cause),
    ensures
        e.rendering(code_type, code) == rendering(
            code_type,
            code,
            e.location,
            e.msg,
            e.trace,
            None,
        ) + "\nCaused by: "@ + cause.debug,
        contains(e.rendering(code_type, code), "Caused by: "@ + cause.debug),
{
    let before = rendering(code_type, code, e.location, e.msg, e.trace, None);
    let whole = e.rendering(code_type, code);
    assert(whole =~= before + "\nCaused by: "@ + cause.debug);
    reveal_strlit("\nCaused by: ");
    reveal_strlit("\n");
    reveal_strlit("Caused by: ");
    assert("\nCaused by: "@ =~= "\n"@ + "Caused by: "@);
    let line = "Caused by: "@ + cause.debug;
    assert(whole =~= (before + "\n"@) + line + Seq::<char>::empty());
    lemma_part_occurs(before + "\n"@, line, Seq::empty());
}

/// Wrapping an earlier failure gives an error with the code and the
/// message that were asked for, built where the wrapping was set up, and
/// with that failure as its cause, rendered as the failure renders.
pub proof fn lemma_wrapping_keeps_the_cause<T, const TRACE: bool>(
    code: T,
    msg: String,
    cause: Cause,
    file: &str,
    line: u32,
    e: Error<T, TRACE>,
    code_type: Seq<char>,
    code_text: Seq<char>,
)
    requires
        call_ensures(
            <Error<T, TRACE> as From<(T, String, Cause, &str, u32)>>::from,
            ((code, msg, cause, file, line),),
            e,
        ),
    ensures
        e@.code == code,
        e@.msg == msg@,
        e@.location == Some(LocationView { file: file@, line }),
        e@.cause == Some(cause@),
        contains(e@.rendering(code_type, code_text), "Caused by: "@ + cause@.debug),
{
    lemma_cause_is_rendered(e@, cause@, code_type, code_text);
}

/// An error put back together from the code, the message and the location
/// of another has these three as the other had them, and neither a cause
/// nor a trace.
pub proof fn lemma_restored_keeps_code_and_message<
    T: std::fmt::Debug + Copy + Sync + Send + 'static,
    const TRACE: bool,
>(
    e: Error<T, TRACE>,
    code: T,
    shown: &str,
    msg: String,
    location: Option<Location>,
    back: Error<T, TRACE>,
)
    requires
        call_ensures(Error::<T, TRACE>::code, (&e,), code),
        call_ensures(Error::<T, TRACE>::msg, (&e,), shown),
        msg@ == shown@,
        held(location) == e@.location,
        call_ensures(Error::<T, TRACE>::restored, (code, msg, location), back),
    ensures
        back@.code == e@.code,
        back@.msg == e@.msg,
        back@.location == e@.location,
        back@.cause is None,
        back@.trace is None,
{
}

} // verus!
