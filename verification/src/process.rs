//! The shapes that cross the boundary to the host: a command line to run,
//! and what came of running one.

use vstd::prelude::*;

verus! {

/// What came of attempting to run one external program.
///
/// Three terminal cases are distinguished: the program could not be launched
/// at all, it ran and exited with status zero, or it ran and exited nonzero.
/// The last two share the `Exited` variant, told apart by `exit_zero`.
#[derive(Debug)]
pub enum ProcessOutcome {
    /// The attempted start never produced a process: the executable is
    /// missing from the search path, or could not be started. `detail` is
    /// the host's description of the failure.
    LaunchFailure { detail: String },
    /// The program launched and ran to completion. `exit_zero` says whether
    /// its exit status was zero; `stdout` and `stderr` hold the captured
    /// output streams.
    Exited { exit_zero: bool, stdout: String, stderr: String },
}

/// Mathematical model of a [`ProcessOutcome`].
pub ghost enum ProcessOutcomeView {
    LaunchFailure { detail: Seq<char> },
    Exited { exit_zero: bool, stdout: Seq<char>, stderr: Seq<char> },
}

impl View for ProcessOutcome {
    type V = ProcessOutcomeView;

    open spec fn view(&self) -> ProcessOutcomeView {
        match self {
            ProcessOutcome::LaunchFailure { detail } => ProcessOutcomeView::LaunchFailure {
                detail: detail@,
            },
            ProcessOutcome::Exited { exit_zero, stdout, stderr } => ProcessOutcomeView::Exited {
                exit_zero: *exit_zero,
                stdout: stdout@,
                stderr: stderr@,
            },
        }
    }
}

/// A command line for the host to execute: a program name to be resolved on
/// the executable search path (never a literal file path), and its ordered
/// arguments.
#[derive(Debug)]
pub struct Invocation {
    pub program: String,
    pub args: Vec<String>,
}

/// Mathematical model of an [`Invocation`].
pub ghost struct InvocationView {
    pub program: Seq<char>,
    pub args: Seq<Seq<char>>,
}

impl View for Invocation {
    type V = InvocationView;

    open spec fn view(&self) -> InvocationView {
        InvocationView { program: self.program@, args: self.args.deep_view() }
    }
}

} // verus!
