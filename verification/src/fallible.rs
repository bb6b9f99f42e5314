//! Turning an absent or erroneous value into a classified failure.

use vstd::prelude::*;
use vstd::string::to_string_from_display_ensures;

use crate::signal::{error, error_color, AnerrorPanic};
use crate::text::{emphasized, join_cause, with_cause};

verus! {

/// A value that may stand for a failure: either it holds something to go on
/// with, or it is turned into an [`AnerrorPanic`] that explains what is
/// missing. Implemented for `Option<T>` and for `Result<T, String>`, whose
/// error is the cause as it reads to the operator.
pub trait FallibleExt<T>: Sized {
    /// The value to go on with, where there is one.
    spec fn value(self) -> Option<T>;

    /// What the failure says under the caller's context `msg`, where there is
    /// no value to go on with.
    spec fn failure_text(self, msg: Seq<char>) -> Seq<char>;

    /// Hands the value on, or else the failure that carries
    /// `failure_text(msg)`.
    fn fail(self, msg: &str) -> (r: Result<T, AnerrorPanic>)
        ensures
            self.value() matches Some(v) ==> r == Ok::<T, AnerrorPanic>(v),
            self.value() is None ==> (r matches Err(signal) && signal@ == self.failure_text(msg@)),
    ;

    /// Hands the value on, or else the failure that carries
    /// `failure_text(msg)` in bold red.
    fn fail_color(self, msg: &str) -> (r: Result<T, AnerrorPanic>)
        ensures
            self.value() matches Some(v) ==> r == Ok::<T, AnerrorPanic>(v),
            self.value() is None ==> (r matches Err(signal) && signal@ == emphasized(
                self.failure_text(msg@),
            )),
    ;
}

impl<T> FallibleExt<T> for Option<T> {
    open spec fn value(self) -> Option<T> {
        self
    }

    /// An absent value has no cause to add: the failure says `msg` alone.
    open spec fn failure_text(self, msg: Seq<char>) -> Seq<char> {
        msg
    }

    fn fail(self, msg: &str) -> (r: Result<T, AnerrorPanic>) {
        match self {
            Some(t) => Ok(t),
            None => Err(error(msg)),
        }
    }

    fn fail_color(self, msg: &str) -> (r: Result<T, AnerrorPanic>) {
        match self {
            Some(t) => Ok(t),
            None => Err(error_color(msg)),
        }
    }
}

impl<T> FallibleExt<T> for Result<T, String> {
    open spec fn value(self) -> Option<T> {
        match self {
            Ok(t) => Some(t),
            Err(_) => None,
        }
    }

    /// The caller's context, then the cause, whatever either holds: an empty
    /// context is not left out.
    open spec fn failure_text(self, msg: Seq<char>) -> Seq<char> {
        match self {
            Ok(_) => msg,
            Err(cause) => with_cause(msg, cause@),
        }
    }

    fn fail(self, msg: &str) -> (r: Result<T, AnerrorPanic>) {
        match self {
            Ok(t) => Ok(t),
            Err(cause) => Err(AnerrorPanic::new(join_cause(msg, cause.as_str()))),
        }
    }

    fn fail_color(self, msg: &str) -> (r: Result<T, AnerrorPanic>) {
        match self {
            Ok(t) => Ok(t),
            Err(cause) => Err(error_color(join_cause(msg, cause.as_str()).as_str())),
        }
    }
}

/// Renders the cause of an erroneous value by its own display form, so that
/// the failure can quote it. A value that is there passes through.
pub fn displayed<T, E: std::fmt::Display>(r: Result<T, E>) -> (out: Result<T, String>)
    ensures
        match r {
            Ok(t) => out == Ok::<T, String>(t),
            Err(e) => out matches Err(cause) && to_string_from_display_ensures::<E>(&e, cause),
        },
{
    match r {
        Ok(t) => Ok(t),
        Err(e) => Err(e.to_string()),
    }
}

/// An absent value fails as [`error`] does on the same message, and a present
/// one does not fail: `fail` hands it on.
pub proof fn lemma_option_fails_as_error<T>(v: T, msg: Seq<char>)
    ensures
        None::<T>.value() is None,
        None::<T>.failure_text(msg) == msg,
        Some(v).value() == Some(v),
{
}

/// An erroneous value fails with the caller's context, a colon and a space,
/// and the cause, in that order; a successful one does not fail: `fail` hands
/// its value on.
pub proof fn lemma_result_fails_with_cause<T>(v: T, cause: String, msg: Seq<char>)
    ensures
        Err::<T, String>(cause).value() is None,
        Err::<T, String>(cause).failure_text(msg) == msg + seq![':', ' '] + cause@,
        Ok::<T, String>(v).value() == Some(v),
{
}

} // verus!
