//! A structured error value: a typed code, a message, an optional chain of
//! causes, and optional diagnostics (where it was built, a stack trace).
//!
//! The code is what programs match on; the rest is for people. An error
//! renders on one line as the code's type and the code, where it was built
//! and the message, followed by the stack trace and by the cause, each on
//! lines of their own. Whether errors take a stack trace is a parameter of
//! the type, so it is settled when the program is compiled.

pub mod cause;
pub mod error;
pub mod laws;
pub mod location;
pub mod render;
pub mod text;
pub mod trace;

pub use cause::Cause;
pub use error::{Error, Result};
pub use location::Location;
pub use trace::CapturedTrace;
