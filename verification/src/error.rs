//! The error value: a typed code with a message, an optional cause and
//! optional diagnostics. A value never changes once it is built.

use vstd::prelude::*;
use vstd::std_specs::convert::FromSpecImpl;
use vstd::string::*;
use crate::cause::{Cause, CauseView};
use crate::location::{Location, LocationView};
use crate::render::{held, render, rendering, viewed};
use crate::trace::{capture_trace, CapturedTrace, TraceView};

verus! {

/// An error with a code of type `T`. `TRACE` says whether errors of this
/// type take a stack trace when they are built: it is fixed when the program
/// is compiled, and only with `TRACE` set is there a way to read a trace.
pub struct Error<T, const TRACE: bool> {
    code: T,
    msg: String,
    source: Option<Cause>,
    backtrace: Option<CapturedTrace>,
    location: Option<Location>,
}

/// The result of an operation that fails with an `Error`.
pub type Result<T, C, const TRACE: bool> = std::result::Result<T, Error<C, TRACE>>;

/// What an `Error` holds.
pub struct ErrorView<T> {
    /// The kind of failure: the one part that programs match on.
    pub code: T,
    /// The message; empty where none was given.
    pub msg: Seq<char>,
    /// Where the error was built, if that was recorded.
    pub location: Option<LocationView>,
    /// The stack trace taken when the error was built, if one was taken.
    pub trace: Option<TraceView>,
    /// The earlier failure that this error wraps, if any.
    pub cause: Option<CauseView>,
}

impl<T> ErrorView<T> {
    /// Whether the error has this code, message, location and cause. The
    /// trace is left open: what a capture gives is not up to the caller.
    pub open spec fn made_of(
        self,
        code: T,
        msg: Seq<char>,
        location: Option<LocationView>,
        cause: Option<CauseView>,
    ) -> bool {
        &&& self.code == code
        &&& self.msg == msg
        &&& self.location == location
        &&& self.cause == cause
    }

    /// The rendering of the error, given the name of the code's type and the
    /// code's debug rendering.
    pub open spec fn rendering(self, code_type: Seq<char>, code: Seq<char>) -> Seq<char> {
        rendering(code_type, code, self.location, self.msg, self.trace, self.cause)
    }
}

impl<T, const TRACE: bool> View for Error<T, TRACE> {
    type V = ErrorView<T>;

    closed spec fn view(&self) -> ErrorView<T> {
        ErrorView {
            code: self.code,
            msg: self.msg@,
            location: held(self.location),
            trace: if TRACE {
                held(self.backtrace)
            } else {
                None
            },
            cause: held(self.source),
        }
    }
}

/// An error of a type that takes no traces holds none.
pub proof fn lemma_untraced_holds_no_trace<T>(e: Error<T, false>)
    ensures
        e@.trace is None,
{
}

/// The optional view as a link of a chain.
pub open spec fn boxed(cause: Option<CauseView>) -> Option<Box<CauseView>> {
    match cause {
        Some(earlier) => Some(Box::new(earlier)),
        None => None,
    }
}

/// The `Debug` rendering of a value, by `format!` of std. What it gives is
/// up to the type's own `Debug`, so the contract claims nothing of it.
#[verifier::external_body]
fn debug_text<T: std::fmt::Debug>(value: &T) -> (text: String) {
    format!("{:?}", value)
}

/// A trace where errors of the type take one, none where they do not.
fn trace_if(wanted: bool) -> (trace: Option<CapturedTrace>)
    ensures
        trace is Some <==> wanted,
{
    if wanted {
        Some(capture_trace())
    } else {
        None
    }
}

impl<T, const TRACE: bool> Error<T, TRACE> {
    /// Only errors of a type that takes traces hold one.
    #[verifier::type_invariant]
    spec fn untraced_holds_no_trace(&self) -> bool {
        TRACE || self.backtrace is None
    }

    /// Puts an error together, taking a trace where the type asks for one.
    fn build(code: T, msg: String, source: Option<Cause>, location: Option<Location>) -> (e: Self)
        ensures
            e@.made_of(code, msg@, held(location), held(source)),
            e@.trace is Some <==> TRACE,
    {
        let backtrace = trace_if(TRACE);
        Error { code, msg, source, backtrace, location }
    }

    /// An error with a code and a message and nothing else: no location and
    /// no cause.
    pub fn with_code(code: T, msg: String) -> (e: Self)
        ensures
            e@.made_of(code, msg@, None, None),
            e@.trace is Some <==> TRACE,
    {
        Self::build(code, msg, None, None)
    }

    /// An error put back together from parts that were stored: no cause and
    /// no trace, whatever the type.
    pub fn restored(code: T, msg: String, location: Option<Location>) -> (e: Self)
        ensures
            e@.made_of(code, msg@, held(location), None),
            e@.trace is None,
    {
        Error { code, msg, source: None, backtrace: None, location }
    }

    /// The message; empty where none was given.
    pub fn msg(&self) -> (msg: &str)
        ensures
            msg@ == self@.msg,
    {
        self.msg.as_str()
    }

    /// The earlier failure that this error wraps, if any.
    pub fn source(&self) -> (cause: Option<&Cause>)
        ensures
            viewed(cause) == self@.cause,
    {
        self.source.as_ref()
    }

    /// Where the error was built, if that was recorded.
    pub fn location(&self) -> (location: Option<&Location>)
        ensures
            viewed(location) == self@.location,
    {
        self.location.as_ref()
    }

    /// Renders the error, given the name of the code's type and the code's
    /// debug rendering.
    pub fn render_with(&self, code_type: &str, code: &str) -> (out: String)
        ensures
            out@ == self@.rendering(code_type@, code@),
    {
        proof {
            use_type_invariant(self);
        }
        render(
            code_type,
            code,
            self.location.as_ref(),
            self.msg.as_str(),
            self.backtrace.as_ref(),
            self.source.as_ref(),
        )
    }
}

impl<T: std::fmt::Debug + Copy + Sync + Send + 'static, const TRACE: bool> Error<T, TRACE> {
    /// An error built at `line` of `file`, without a cause.
    pub fn new(code: T, msg: String, file: &str, line: u32) -> (e: Self)
        ensures
            e@.made_of(code, msg@, Some(LocationView { file: file@, line }), None),
            e@.trace is Some <==> TRACE,
    {
        Self::build(code, msg, None, Some(Location::new(file, line)))
    }

    /// The code.
    pub fn code(&self) -> (code: T)
        ensures
            code == self@.code,
    {
        self.code
    }

    /// Renders the error for reading, given the name of the code's type. The
    /// code is rendered by its own `Debug`.
    pub fn render(&self, code_type: &str) -> (out: String)
        ensures
            exists|code: Seq<char>| out@ == #[trigger] self@.rendering(code_type@, code),
    {
        let code = debug_text(&self.code);
        self.render_with(code_type, code.as_str())
    }

    /// Turns the error into the cause of a later one. The cause renders as
    /// the error did, for debug and for display alike, and keeps the
    /// error's own cause behind it.
    pub fn into_cause(self, code_type: &str) -> (cause: Cause)
        ensures
            exists|code: Seq<char>|
                cause@.debug == #[trigger] self@.rendering(code_type@, code),
            cause@.display == cause@.debug,
            cause@.source == boxed(self@.cause),
    {
        let text = self.render(code_type);
        let shown = text.clone();
        let Error { source, .. } = self;
        Cause::new(text, shown, source)
    }
}

impl<T> Error<T, true> {
    /// The stack trace taken when the error was built, if one was taken.
    pub fn backtrace(&self) -> (trace: Option<&CapturedTrace>)
        ensures
            viewed(trace) == self@.trace,
    {
        self.backtrace.as_ref()
    }
}

impl<T: Default, const TRACE: bool> From<String> for Error<T, TRACE> {
    /// An error with the default code and the given message, for a failure
    /// that no code names.
    fn from(value: String) -> (e: Self)
        ensures
            call_ensures(T::default, (), e@.code),
            e@.msg == value@,
            e@.location is None,
            e@.cause is None,
            e@.trace is Some <==> TRACE,
    {
        Self::build(T::default(), value, None, None)
    }
}

impl<T: Default, const TRACE: bool> FromSpecImpl<String> for Error<T, TRACE> {
    /// The conversion takes a stack trace where the type asks for one, so
    /// its result is no function of its argument: `from` states it.
    open spec fn obeys_from_spec() -> bool {
        false
    }

    open spec fn from_spec(v: String) -> Self {
        arbitrary()
    }
}

impl<T, const TRACE: bool> From<(T, String, Cause)> for Error<T, TRACE> {
    /// An error that wraps `value.2` under the code `value.0` and the
    /// message `value.1`, with no location.
    fn from(value: (T, String, Cause)) -> (e: Self)
        ensures
            e@.made_of(value.0, value.1@, None, Some(value.2@)),
            e@.trace is Some <==> TRACE,
    {
        Self::build(value.0, value.1, Some(value.2), None)
    }
}

impl<T, const TRACE: bool> FromSpecImpl<(T, String, Cause)> for Error<T, TRACE> {
    /// The conversion takes a stack trace where the type asks for one, so
    /// its result is no function of its argument: `from` states it.
    open spec fn obeys_from_spec() -> bool {
        false
    }

    open spec fn from_spec(v: (T, String, Cause)) -> Self {
        arbitrary()
    }
}

impl<'a, T, const TRACE: bool> From<(T, String, Cause, &'a str, u32)> for Error<T, TRACE> {
    /// An error that wraps `value.2` under the code `value.0` and the
    /// message `value.1`, built at line `value.4` of the file `value.3`.
    fn from(value: (T, String, Cause, &'a str, u32)) -> (e: Self)
        ensures
            e@.made_of(
                value.0,
                value.1@,
                Some(LocationView { file: value.3@, line: value.4 }),
                Some(value.2@),
            ),
            e@.trace is Some <==> TRACE,
    {
        Self::build(value.0, value.1, Some(value.2), Some(Location::new(value.3, value.4)))
    }
}

impl<'a, T, const TRACE: bool> FromSpecImpl<(T, String, Cause, &'a str, u32)> for Error<T, TRACE> {
    /// The conversion takes a stack trace where the type asks for one, so
    /// its result is no function of its argument: `from` states it.
    open spec fn obeys_from_spec() -> bool {
        false
    }

    open spec fn from_spec(v: (T, String, Cause, &'a str, u32)) -> Self {
        arbitrary()
    }
}

impl<'a, 'b, T, const TRACE: bool> From<(T, &'a str, Cause, &'b str, u32)> for Error<T, TRACE> {
    /// As the conversion above, with a borrowed message.
    fn from(value: (T, &'a str, Cause, &'b str, u32)) -> (e: Self)
        ensures
            e@.made_of(
                value.0,
                value.1@,
                Some(LocationView { file: value.3@, line: value.4 }),
                Some(value.2@),
            ),
            e@.trace is Some <==> TRACE,
    {
        Self::build(
            value.0,
            String::from_str(value.1),
            Some(value.2),
            Some(Location::new(value.3, value.4)),
        )
    }
}

impl<'a, 'b, T, const TRACE: bool> FromSpecImpl<(T, &'a str, Cause, &'b str, u32)> for Error<T, TRACE> {
    /// The conversion takes a stack trace where the type asks for one, so
    /// its result is no function of its argument: `from` states it.
    open spec fn obeys_from_spec() -> bool {
        false
    }

    open spec fn from_spec(v: (T, &'a str, Cause, &'b str, u32)) -> Self {
        arbitrary()
    }
}

} // verus!
