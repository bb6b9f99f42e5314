//! Classified failures for command-line programs.
//!
//! A computation that cannot go on for a reason the operator should read hands
//! back an [`AnerrorPanic`]: a failure that already carries its final, rendered
//! message. At the outer edge of the program a [`Boundary`] turns what the
//! computation came to (a normal return, a classified failure, or any other
//! defect) into the one diagnostic line to write and the status to exit with.
//!
//! Everything here is a function from plain values to plain values; raising,
//! catching, writing and exiting belong to the caller.

pub mod boundary;
pub mod fallible;
pub mod signal;
pub mod text;

pub use boundary::{verdict, Boundary, Outcome, Verdict};
pub use fallible::{displayed, FallibleExt};
pub use signal::{error, error_color, AnerrorPanic};
