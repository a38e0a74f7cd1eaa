//! Building the text of a failure message.

use vstd::prelude::*;

verus! {

/// How a message is dressed before it is printed.
#[derive(Clone, Copy, Debug, PartialEq, Eq, Structural)]
pub enum Style {
    /// The text as it is.
    Plain,
    /// The text in bold red, for terminals that read ANSI escape codes.
    Color,
}

/// The escape codes that switch a terminal to red and then to bold.
pub open spec fn color_on() -> Seq<char> {
    "\x1b[38;5;1m\x1b[1m"@
}

/// The escape code that switches a terminal back to its defaults.
pub open spec fn color_off() -> Seq<char> {
    "\x1b[0m"@
}

/// What separates a context message from the error it explains.
pub open spec fn separator() -> Seq<char> {
    ": "@
}

/// The text `body` dressed in `style`.
pub open spec fn styled(style: Style, body: Seq<char>) -> Seq<char> {
    match style {
        Style::Plain => body,
        Style::Color => color_on() + body + color_off(),
    }
}

/// The message for a failure that has a cause: the context, a colon and a
/// space, then the cause.
pub open spec fn with_cause(context: Seq<char>, cause: Seq<char>) -> Seq<char> {
    context + separator() + cause
}

/// `String::push_str` of std: the string afterwards is the string before
/// followed by the characters of `piece`, and nothing else changes.
#[verifier::external_body]
fn append(buf: &mut String, piece: &str)
    ensures
        final(buf)@ == old(buf)@ + piece@,
{
    buf.push_str(piece)
}

/// Dresses `body` in `style`.
pub fn render(style: Style, body: &str) -> (out: String)
    ensures
        out@ == styled(style, body@),
{
    let mut out = String::new();
    match style {
        Style::Plain => {
            append(&mut out, body);
        },
        Style::Color => {
            append(&mut out, "\x1b[38;5;1m\x1b[1m");
            append(&mut out, body);
            append(&mut out, "\x1b[0m");
        },
    }
    assert(Seq::<char>::empty() + body@ =~= body@);
    out
}

/// Joins a context message and the text of the error it explains.
pub fn explain(context: &str, cause: &str) -> (out: String)
    ensures
        out@ == with_cause(context@, cause@),
{
    let mut out = String::new();
    append(&mut out, context);
    append(&mut out, ": ");
    append(&mut out, cause);
    assert(Seq::<char>::empty() + context@ =~= context@);
    out
}

} // verus!
