//! The fixed string transformations applied to a failure's message.

use vstd::prelude::*;
use vstd::string::StringExecFns;

verus! {

/// The control sequence that opens an emphasized message: foreground colour 1
/// of the 256-colour palette, then bold.
pub open spec fn emphasis_prefix() -> Seq<char> {
    seq!['\x1b', '[', '3', '8', ';', '5', ';', '1', 'm', '\x1b', '[', '1', 'm']
}

/// The control sequence that closes an emphasized message: reset all attributes.
pub open spec fn emphasis_suffix() -> Seq<char> {
    seq!['\x1b', '[', '0', 'm']
}

/// What stands between the caller's context and the underlying cause.
pub open spec fn cause_separator() -> Seq<char> {
    seq![':', ' ']
}

/// `text` between the emphasis prefix and the reset suffix.
pub open spec fn emphasized(text: Seq<char>) -> Seq<char> {
    emphasis_prefix() + text + emphasis_suffix()
}

/// The caller's context first, the underlying cause second.
pub open spec fn with_cause(context: Seq<char>, cause: Seq<char>) -> Seq<char> {
    context + cause_separator() + cause
}

/// `text` with a line feed after it: one line of diagnostic output.
pub open spec fn line(text: Seq<char>) -> Seq<char> {
    text.push('\n')
}

/// Wraps `text` in the emphasis sequences.
pub fn emphasize(text: &str) -> (out: String)
    ensures
        out@ == emphasized(text@),
{
    let mut out = String::from_str("\x1b[38;5;1m\x1b[1m");
    out.append(text);
    out.append("\x1b[0m");
    proof {
        reveal_strlit("\x1b[38;5;1m\x1b[1m");
        reveal_strlit("\x1b[0m");
        assert("\x1b[38;5;1m\x1b[1m"@ =~= emphasis_prefix());
        assert("\x1b[0m"@ =~= emphasis_suffix());
    }
    out
}

/// Joins the caller's context and the rendered cause.
pub fn join_cause(context: &str, cause: &str) -> (out: String)
    ensures
        out@ == with_cause(context@, cause@),
{
    let mut out = String::from_str(context);
    out.append(": ");
    out.append(cause);
    proof {
        reveal_strlit(": ");
        assert(": "@ =~= cause_separator());
    }
    out
}

/// Ends `text` with a line feed.
pub fn end_line(text: &str) -> (out: String)
    ensures
        out@ == line(text@),
{
    let mut out = String::from_str(text);
    out.append("\n");
    proof {
        reveal_strlit("\n");
        assert(text@ + "\n"@ =~= line(text@));
    }
    out
}

} // verus!
