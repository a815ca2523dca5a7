//! Where in the source an error was built.

use vstd::prelude::*;
use vstd::string::*;

verus! {

/// A place in the source: a file and a line.
pub struct Location {
    file: String,
    line: u32,
}

/// What a `Location` holds.
pub struct LocationView {
    /// The name of the source file.
    pub file: Seq<char>,
    /// The line in that file.
    pub line: u32,
}

impl View for Location {
    type V = LocationView;

    closed spec fn view(&self) -> LocationView {
        LocationView { file: self.file@, line: self.line }
    }
}

impl Location {
    /// The place at `line` of `file`.
    pub fn new(file: &str, line: u32) -> (place: Self)
        ensures
            place@ == (LocationView { file: file@, line }),
    {
        Location { file: String::from_str(file), line }
    }

    /// The name of the source file.
    pub fn file(&self) -> (file: &str)
        ensures
            file@ == self@.file,
    {
        self.file.as_str()
    }

    /// The line in that file.
    pub fn line(&self) -> (line: u32)
        ensures
            line == self@.line,
    {
        self.line
    }
}

} // verus!
