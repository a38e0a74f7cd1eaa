//! Clean, user-facing failure messages for command-line programs.
//!
//! A program that cannot go on builds a termination marker, a value that
//! carries one finished line of text. The marker travels up to the guard
//! around the program's entry point, which decides what is printed and with
//! which status the process ends.

pub mod text;
pub mod marker;
pub mod fallible;
pub mod guard;

pub use crate::fallible::FallibleExt;
pub use crate::guard::{settle, Action, Outcome, FAILURE_STATUS};
pub use crate::marker::{AnerrorPanic, ErrataPanic};
pub use crate::text::{explain, render, Style};
