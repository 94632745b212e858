//! The tool presence check: reduce any outcome of a version-query run of
//! `spotdl` to a single boolean "available" signal.

use vstd::prelude::*;
use vstd::string::StringExecFns;

use crate::process::{Invocation, InvocationView, ProcessOutcome, ProcessOutcomeView};

verus! {

/// The fixed name of the external tool, resolved on the host's executable
/// search path.
pub open spec fn spec_tool_program() -> Seq<char> {
    "spotdl"@
}

/// The external tool's name as an owned string.
pub fn tool_program() -> (program: String)
    ensures
        program@ == spec_tool_program(),
{
    "spotdl".to_owned()
}

/// The presence probe: a version query of the external tool, used solely to
/// learn whether the tool is usable, never to do real work.
pub open spec fn spec_probe_invocation() -> InvocationView {
    InvocationView { program: spec_tool_program(), args: seq!["--version"@] }
}

/// Build the presence probe command line, `spotdl --version`.
pub fn probe_invocation() -> (inv: Invocation)
    ensures
        inv@ == spec_probe_invocation(),
{
    let mut args: Vec<String> = Vec::new();
    args.push("--version".to_owned());
    let inv = Invocation { program: tool_program(), args };
    proof {
        assert(inv@.args =~= spec_probe_invocation().args);
    }
    inv
}

/// What the presence check answers for a given probe outcome: the tool is
/// available exactly when the version query produced a process at all.
///
/// A nonzero exit of the version query still counts as "present": the tool
/// exists and responded, and some tools report their version with a nonzero
/// status in edge environments. This tolerance is deliberate; only a launch
/// failure means the tool is unusable.
pub open spec fn spec_tool_available(outcome: ProcessOutcomeView) -> bool {
    outcome is Exited
}

/// Classify the outcome of a presence probe (a `spotdl --version` run).
///
/// Never fails: every outcome, including a launch failure and a nonzero
/// exit, maps to a boolean. Presence checking is advisory, so ambiguity
/// resolves to "assume present" and a later download attempt fails loudly
/// if that was wrong.
pub fn tool_available(outcome: &ProcessOutcome) -> (available: bool)
    ensures
        available == spec_tool_available(outcome@),
{
    match outcome {
        ProcessOutcome::LaunchFailure { .. } => false,
        ProcessOutcome::Exited { .. } => true,
    }
}

} // verus!
