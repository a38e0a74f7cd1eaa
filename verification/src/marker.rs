//! The termination markers: values that stand for "stop the program cleanly
//! and print this line".

use vstd::prelude::*;
use crate::text::{render, styled, Style};

verus! {

/// A termination marker that holds one finished message.
///
/// It has no identity beyond its text: its view is that text.
#[derive(Debug)]
pub struct ErrataPanic(pub String);

impl View for ErrataPanic {
    type V = Seq<char>;

    open spec fn view(&self) -> Seq<char> {
        self.0@
    }
}

impl ErrataPanic {
    /// The marker for the message `body`, dressed in `style`.
    pub fn new(style: Style, body: &str) -> (marker: ErrataPanic)
        ensures
            marker@ == styled(style, body@),
    {
        ErrataPanic(render(style, body))
    }

    /// The line that is printed for this marker: its text, unchanged.
    pub fn message(&self) -> (line: String)
        ensures
            line@ == self@,
    {
        self.0.clone()
    }
}

/// A termination marker that holds the text of the error that caused the
/// failure.
#[derive(Debug)]
pub struct AnerrorPanic(String);

impl View for AnerrorPanic {
    type V = Seq<char>;

    closed spec fn view(&self) -> Seq<char> {
        self.0@
    }
}

impl AnerrorPanic {
    /// The marker for an error that displays as `cause`.
    pub fn new(cause: String) -> (marker: AnerrorPanic)
        ensures
            marker@ == cause@,
    {
        AnerrorPanic(cause)
    }

    /// The line that is printed for this marker: the text of its error.
    pub fn message(&self) -> (line: String)
        ensures
            line@ == self@,
    {
        self.0.clone()
    }

    /// The same failure as a marker with a finished message.
    pub fn into_panic(self) -> (marker: ErrataPanic)
        ensures
            marker@ == self@,
    {
        ErrataPanic(self.0)
    }
}

} // verus!
