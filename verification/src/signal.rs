//! The value that marks a failure as classified.

use vstd::prelude::*;
use vstd::string::StringExecFns;

use crate::text::{emphasize, emphasized};

verus! {

/// A classified failure: one that the operator is meant to read. It carries
/// its message fully rendered, and nothing can change that text afterwards.
#[derive(Debug)]
pub struct AnerrorPanic {
    text: String,
}

impl View for AnerrorPanic {
    type V = Seq<char>;

    /// The text that the failure carries.
    closed spec fn view(&self) -> Seq<char> {
        self.text@
    }
}

impl AnerrorPanic {
    /// A failure that carries `text` as it is.
    pub fn new(text: String) -> (signal: Self)
        ensures
            signal@ == text@,
    {
        AnerrorPanic { text }
    }

    /// The text that the failure carries.
    pub fn text(&self) -> (text: &str)
        ensures
            text@ == self@,
    {
        self.text.as_str()
    }

    /// Gives up the failure for its text.
    pub fn into_text(self) -> (text: String)
        ensures
            text@ == self@,
    {
        self.text
    }
}

/// The failure that says `msg`, word for word.
pub fn error(msg: &str) -> (signal: AnerrorPanic)
    ensures
        signal@ == msg@,
{
    AnerrorPanic::new(String::from_str(msg))
}

/// The failure that says `msg` in bold red: the emphasis is part of the text
/// from here on, so whoever prints it has nothing left to decide.
pub fn error_color(msg: &str) -> (signal: AnerrorPanic)
    ensures
        signal@ == emphasized(msg@),
{
    AnerrorPanic::new(emphasize(msg))
}

} // verus!
