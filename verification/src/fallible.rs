//! Turning a missing value or an error value into a termination marker.

use vstd::prelude::*;
use crate::marker::ErrataPanic;
use crate::text::{explain, styled, with_cause, Style};

verus! {

/// Values that either hold a `T` or stand for a failure.
/// Implemented for `Option<T>` and for `Result<T, String>`, whose error is the
/// text that the failure displays as.
pub trait FallibleExt<T>: Sized {
    /// Whether the value holds a `T`.
    spec fn holds(self) -> bool;

    /// The `T` that the value holds, where it holds one.
    spec fn held(self) -> T;

    /// The undressed message of the failure, given the caller's context
    /// message `msg`, where the value holds no `T`.
    spec fn failure_text(self, msg: Seq<char>) -> Seq<char>;

    /// Hands out the value that is known to be there.
    fn fail(self, msg: &str) -> (t: T)
        requires
            self.holds(),
        ensures
            t == self.held(),
    ;

    /// Hands out the value, or else the marker that ends the program with the
    /// failure's message dressed in `style`.
    fn or_marker(self, msg: &str, style: Style) -> (r: Result<T, ErrataPanic>)
        ensures
            self.holds() ==> r == Ok::<T, ErrataPanic>(self.held()),
            !self.holds() ==> r is Err && r->Err_0@ == styled(style, self.failure_text(msg@)),
    ;
}

impl<T> FallibleExt<T> for Option<T> {
    open spec fn holds(self) -> bool {
        self is Some
    }

    open spec fn held(self) -> T {
        self->Some_0
    }

    /// A missing value has nothing to add: the message is the context itself.
    open spec fn failure_text(self, msg: Seq<char>) -> Seq<char> {
        msg
    }

    fn fail(self, msg: &str) -> (t: T) {
        match self {
            Some(t) => t,
            None => unreached(),
        }
    }

    fn or_marker(self, msg: &str, style: Style) -> (r: Result<T, ErrataPanic>) {
        match self {
            Some(t) => Ok(t),
            None => Err(ErrataPanic::new(style, msg)),
        }
    }
}

impl<T> FallibleExt<T> for Result<T, String> {
    open spec fn holds(self) -> bool {
        self is Ok
    }

    open spec fn held(self) -> T {
        self->Ok_0
    }

    /// An error value is explained: the context, a colon and a space, then the
    /// error's own text.
    open spec fn failure_text(self, msg: Seq<char>) -> Seq<char> {
        with_cause(msg, self->Err_0@)
    }

    fn fail(self, msg: &str) -> (t: T) {
        match self {
            Ok(t) => t,
            Err(_) => unreached(),
        }
    }

    fn or_marker(self, msg: &str, style: Style) -> (r: Result<T, ErrataPanic>) {
        match self {
            Ok(t) => Ok(t),
            Err(e) => {
                let body = explain(msg, e.as_str());
                Err(ErrataPanic::new(style, body.as_str()))
            },
        }
    }
}

} // verus!
