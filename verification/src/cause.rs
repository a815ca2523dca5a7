//! The earlier failure that an error wraps: how it renders, and what caused
//! it in turn.

use vstd::prelude::*;

verus! {

/// An earlier failure, kept as the texts it renders to and its own cause.
/// A chain of causes is owned link by link, so it is finite and has no
/// cycle; it is read from the newest failure to the oldest.
pub struct Cause {
    debug: String,
    display: String,
    source: Option<Box<Cause>>,
}

/// What a `Cause` holds.
pub struct CauseView {
    /// The debug rendering of the failure.
    pub debug: Seq<char>,
    /// The display rendering of the failure.
    pub display: Seq<char>,
    /// What caused the failure, if that is known.
    pub source: Option<Box<CauseView>>,
}

impl View for Cause {
    type V = CauseView;

    closed spec fn view(&self) -> CauseView {
        self.links()
    }
}

impl Cause {
    /// The view, link by link.
    spec fn links(&self) -> CauseView
        decreases self,
    {
        CauseView {
            debug: self.debug@,
            display: self.display@,
            source: match self.source {
                Some(older) => Some(Box::new(older.links())),
                None => None,
            },
        }
    }

    /// A cause with the given renderings and, if any, its own cause.
    pub fn new(debug: String, display: String, source: Option<Cause>) -> (cause: Self)
        ensures
            cause@.debug == debug@,
            cause@.display == display@,
            match source {
                Some(older) => cause@.source == Some(Box::new(older@)),
                None => cause@.source is None,
            },
    {
        match source {
            Some(older) => Cause { debug, display, source: Some(Box::new(older)) },
            None => Cause { debug, display, source: None },
        }
    }

    /// The debug rendering.
    pub fn debug(&self) -> (text: &str)
        ensures
            text@ == self@.debug,
    {
        self.debug.as_str()
    }

    /// The display rendering.
    pub fn display(&self) -> (text: &str)
        ensures
            text@ == self@.display,
    {
        self.display.as_str()
    }

    /// What caused this failure, if that is known.
    pub fn source(&self) -> (older: Option<&Cause>)
        ensures
            match older {
                Some(cause) => self@.source == Some(Box::new(cause@)),
                None => self@.source is None,
            },
    {
        match &self.source {
            Some(older) => Some(&**older),
            None => None,
        }
    }
}

} // verus!
