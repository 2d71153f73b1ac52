//! The second half of the `cd` decision: once the driver has checked
//! whether the requested path exists, this settles what happens to the
//! working directory.

use vstd::prelude::*;
use vstd::string::StringExecFns;

verus! {

/// The outcome of `cd` with an argument.
pub enum CdOutcome {
    /// Make this path the new working directory.
    Change(String),
    /// Leave the working directory unchanged and print this line to the
    /// error stream.
    Report(String),
}

/// The mathematical value of a `CdOutcome`.
pub enum CdOutcomeModel {
    Change(Seq<char>),
    Report(Seq<char>),
}

/// The model of a `cd` outcome.
pub open spec fn cd_outcome_model(o: CdOutcome) -> CdOutcomeModel {
    match o {
        CdOutcome::Change(p) => CdOutcomeModel::Change(p@),
        CdOutcome::Report(m) => CdOutcomeModel::Report(m@),
    }
}

/// What `cd path` does once the driver knows whether `path` exists:
/// an existing path becomes the working directory, a missing one
/// leaves it unchanged and is reported.
pub open spec fn cd_resolve_spec(path: Seq<char>, exists: bool) -> CdOutcomeModel {
    if exists {
        CdOutcomeModel::Change(path)
    } else {
        CdOutcomeModel::Report("Error: cannot find specified path"@)
    }
}

/// Decides what `cd path` does, given whether the path exists.
pub fn cd_resolve(path: String, exists: bool) -> (r: CdOutcome)
    ensures
        cd_outcome_model(r) == cd_resolve_spec(path@, exists),
{
    if exists {
        CdOutcome::Change(path)
    } else {
        CdOutcome::Report(String::from_str("Error: cannot find specified path"))
    }
}

} // verus!
