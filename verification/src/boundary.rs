//! The single outer boundary of a program: what to report, and the status to
//! exit with, for each way its computation can end.

use vstd::prelude::*;

use crate::signal::AnerrorPanic;
use crate::text::{emphasis_prefix, emphasis_suffix, emphasized, end_line, line, with_cause};

verus! {

/// Exit status of a computation that returned normally.
pub const EXIT_COMPLETED: i32 = 0;

/// Exit status of a classified failure.
pub const EXIT_FAILED: i32 = 1;

/// Exit status of a defect: any failure that nobody classified.
pub const EXIT_DEFECT: i32 = 101;

/// How the outermost computation ended.
#[derive(Debug)]
pub enum Outcome {
    /// It returned.
    Completed,
    /// It gave up with a classified failure.
    Failed(AnerrorPanic),
    /// It gave up in any other way.
    Defect,
}

/// An [`Outcome`] as contracts see it: a classified failure is its text.
pub enum OutcomeView {
    Completed,
    Failed(Seq<char>),
    Defect,
}

impl View for Outcome {
    type V = OutcomeView;

    open spec fn view(&self) -> OutcomeView {
        match self {
            Outcome::Completed => OutcomeView::Completed,
            Outcome::Failed(signal) => OutcomeView::Failed(signal@),
            Outcome::Defect => OutcomeView::Defect,
        }
    }
}

/// What the program does last.
#[derive(Debug)]
pub struct Verdict {
    /// What to write to the diagnostic stream, to the letter; empty where
    /// there is nothing to write.
    pub output: String,
    /// Whether the runtime's own report of the defect is to appear, as it
    /// would have without a boundary.
    pub default_diagnostic: bool,
    /// The status to exit with.
    pub exit_code: i32,
}

/// A [`Verdict`] as contracts see it.
pub struct VerdictView {
    pub output: Seq<char>,
    pub default_diagnostic: bool,
    pub exit_code: int,
}

impl View for Verdict {
    type V = VerdictView;

    open spec fn view(&self) -> VerdictView {
        VerdictView {
            output: self.output@,
            default_diagnostic: self.default_diagnostic,
            exit_code: self.exit_code as int,
        }
    }
}

/// The verdict on each outcome. A normal return is silent and exits with 0. A
/// classified failure writes its text and a line feed, and exits with 1. A
/// defect is left to the runtime's own report, and exits with 101.
pub open spec fn verdict_of(outcome: OutcomeView) -> VerdictView {
    match outcome {
        OutcomeView::Completed => VerdictView {
            output: Seq::empty(),
            default_diagnostic: false,
            exit_code: 0,
        },
        OutcomeView::Failed(text) => VerdictView {
            output: line(text),
            default_diagnostic: false,
            exit_code: 1,
        },
        OutcomeView::Defect => VerdictView {
            output: Seq::empty(),
            default_diagnostic: true,
            exit_code: 101,
        },
    }
}

/// Decides what the program does last, given how its computation ended.
pub fn verdict(outcome: Outcome) -> (v: Verdict)
    ensures
        v@ == verdict_of(outcome@),
{
    match outcome {
        Outcome::Completed => Verdict {
            output: String::new(),
            default_diagnostic: false,
            exit_code: EXIT_COMPLETED,
        },
        Outcome::Failed(signal) => Verdict {
            output: end_line(signal.text()),
            default_diagnostic: false,
            exit_code: EXIT_FAILED,
        },
        Outcome::Defect => Verdict {
            output: String::new(),
            default_diagnostic: true,
            exit_code: EXIT_DEFECT,
        },
    }
}

/// The state of a boundary, and what it reports, after it has been told
/// `outcome` in state `spent`: a fresh boundary gives the verdict and is
/// spent; a spent one stays spent and reports nothing.
pub open spec fn settle_spec(spent: bool, outcome: OutcomeView) -> (bool, Option<VerdictView>) {
    if spent {
        (true, None)
    } else {
        (true, Some(verdict_of(outcome)))
    }
}

/// All that a boundary in state `spent` reports when it is told `outcomes`
/// one after another.
pub open spec fn reports(spent: bool, outcomes: Seq<OutcomeView>) -> Seq<VerdictView>
    decreases outcomes.len(),
{
    if outcomes.len() == 0 {
        Seq::empty()
    } else {
        let (next, said) = settle_spec(spent, outcomes.first());
        let rest = reports(next, outcomes.drop_first());
        match said {
            Some(v) => seq![v] + rest,
            None => rest,
        }
    }
}

/// The guard of the outer boundary: it gives one verdict, and no second.
#[derive(Debug)]
pub struct Boundary {
    spent: bool,
}

impl Boundary {
    /// Whether the boundary has given its verdict.
    pub closed spec fn is_spent(&self) -> bool {
        self.spent
    }

    /// A fresh boundary.
    pub fn new() -> (boundary: Self)
        ensures
            !boundary.is_spent(),
    {
        Boundary { spent: false }
    }

    /// Whether the boundary has given its verdict.
    pub fn spent(&self) -> (spent: bool)
        ensures
            spent == self.is_spent(),
    {
        self.spent
    }

    /// Tells the boundary how the computation ended. A fresh boundary answers
    /// with the verdict on `outcome`; a spent one with `None`, whatever the
    /// outcome: the failure is consumed, and nothing is reported twice.
    pub fn settle(&mut self, outcome: Outcome) -> (said: Option<Verdict>)
        ensures
            final(self).is_spent() == settle_spec(old(self).is_spent(), outcome@).0,
            match settle_spec(old(self).is_spent(), outcome@).1 {
                Some(v) => said matches Some(w) && w@ == v,
                None => said is None,
            },
    {
        if self.spent {
            None
        } else {
            self.spent = true;
            Some(verdict(outcome))
        }
    }
}

/// A classified failure that says `msg` is reported as `msg` and a line feed,
/// with exit status 1, and the runtime adds nothing of its own.
pub proof fn lemma_failure_reported_verbatim(msg: Seq<char>)
    ensures
        verdict_of(OutcomeView::Failed(msg)) == (VerdictView {
            output: msg.push('\n'),
            default_diagnostic: false,
            exit_code: 1,
        }),
        reports(false, seq![OutcomeView::Failed(msg)]) == seq![
            verdict_of(OutcomeView::Failed(msg)),
        ],
{
    lemma_one_report(false, seq![OutcomeView::Failed(msg)]);
}

/// An emphasized failure is reported as the prefix, the message, the reset
/// suffix and a line feed, with exit status 1.
pub proof fn lemma_emphasized_failure_reported(msg: Seq<char>)
    ensures
        verdict_of(OutcomeView::Failed(emphasized(msg))).output == (emphasis_prefix() + msg
            + emphasis_suffix()).push('\n'),
        verdict_of(OutcomeView::Failed(emphasized(msg))).exit_code == 1,
        !verdict_of(OutcomeView::Failed(emphasized(msg))).default_diagnostic,
{
}

/// A failure with a cause is reported as the context, a colon and a space, the
/// cause and a line feed, with exit status 1.
pub proof fn lemma_caused_failure_reported(msg: Seq<char>, cause: Seq<char>)
    ensures
        verdict_of(OutcomeView::Failed(with_cause(msg, cause))).output == (msg + seq![':', ' ']
            + cause).push('\n'),
        verdict_of(OutcomeView::Failed(with_cause(msg, cause))).exit_code == 1,
        !verdict_of(OutcomeView::Failed(with_cause(msg, cause))).default_diagnostic,
{
}

/// A defect is never reported in the form of a classified failure: the
/// boundary writes nothing itself and leaves the report to the runtime, and
/// the exit status is neither that of a normal return nor that of a
/// classified failure.
pub proof fn lemma_defect_left_to_runtime()
    ensures
        verdict_of(OutcomeView::Defect).output == Seq::<char>::empty(),
        verdict_of(OutcomeView::Defect).default_diagnostic,
        verdict_of(OutcomeView::Defect).exit_code != 0,
        verdict_of(OutcomeView::Defect).exit_code != 1,
{
}

/// The exit status alone tells the three kinds of outcome apart.
pub proof fn lemma_exit_code_tells_outcome(a: OutcomeView, b: OutcomeView)
    ensures
        verdict_of(a).exit_code == verdict_of(b).exit_code <==> (a is Completed && b is Completed)
            || (a is Failed && b is Failed) || (a is Defect && b is Defect),
{
}

/// Whatever a boundary is told, and however often, it reports at most once: a
/// fresh one the verdict on the first outcome and nothing after it, a spent one
/// nothing at all.
pub proof fn lemma_one_report(spent: bool, outcomes: Seq<OutcomeView>)
    ensures
        reports(spent, outcomes) == if spent || outcomes.len() == 0 {
            Seq::<VerdictView>::empty()
        } else {
            seq![verdict_of(outcomes.first())]
        },
    decreases outcomes.len(),
{
    if outcomes.len() > 0 {
        lemma_one_report(true, outcomes.drop_first());
        if !spent {
            assert(seq![verdict_of(outcomes.first())] + Seq::<VerdictView>::empty()
                =~= seq![verdict_of(outcomes.first())]);
        }
    }
}

} // verus!
