//! The host info query: format the host's operating system and CPU
//! architecture identifiers as one short diagnostic string.

use vstd::prelude::*;
use vstd::string::StringExecFns;

verus! {

/// The exact text reported for host identifiers `os` and `arch`:
/// `OS: <os>, Arch: <arch>`.
pub open spec fn spec_system_info(os: Seq<char>, arch: Seq<char>) -> Seq<char> {
    "OS: "@ + os + ", Arch: "@ + arch
}

/// Format the host's operating system and architecture identifiers.
///
/// Pure: the result is a function of the two identifiers alone, so within
/// one process run — where the identifiers are constants — every call
/// returns the same string. Never fails.
pub fn system_info(os: &str, arch: &str) -> (info: String)
    ensures
        info@ == spec_system_info(os@, arch@),
{
    let info = String::from_str("OS: ").concat(os).concat(", Arch: ").concat(arch);
    proof {
        assert(info@ =~= spec_system_info(os@, arch@));
    }
    info
}

/// The host info query is deterministic: two results that each carry the
/// formatted text for the same pair of host identifiers are identical.
pub proof fn lemma_system_info_deterministic(
    os: Seq<char>,
    arch: Seq<char>,
    first: Seq<char>,
    second: Seq<char>,
)
    requires
        first == spec_system_info(os, arch),
        second == spec_system_info(os, arch),
    ensures
        first == second,
{
}

} // verus!
