//! What the shell relays after waiting for an external command: the
//! child's captured output, and a report of its failure if any. A
//! failed child is reported, never escalated to a shell error.

use vstd::prelude::*;

verus! {

/// What the driver prints after an external command has run.
pub struct LaunchReport {
    /// The child's standard output, written verbatim to standard
    /// output; `None` when the child produced none.
    pub raw_stdout: Option<String>,
    /// The child's captured standard error, written as one line to
    /// standard output (by design, not to standard error) when the
    /// exit status was a failure; `None` when the child succeeded.
    pub failure_text: Option<String>,
}

/// Decides what to relay from a finished external command: its
/// standard output exactly when it produced any, and its standard
/// error text exactly when its exit status was a failure.
pub fn launch_report(success: bool, stdout_text: String, stderr_text: String) -> (r: LaunchReport)
    ensures
        r.raw_stdout is Some <==> stdout_text@.len() > 0,
        r.raw_stdout matches Some(t) ==> t@ == stdout_text@,
        r.failure_text is Some <==> !success,
        r.failure_text matches Some(t) ==> t@ == stderr_text@,
{
    let raw_stdout = if !stdout_text.as_str().is_empty() {
        Some(stdout_text)
    } else {
        None
    };
    let failure_text = if !success {
        Some(stderr_text)
    } else {
        None
    };
    LaunchReport { raw_stdout, failure_text }
}

} // verus!
