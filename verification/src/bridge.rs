//! Outcome rules for timeout-bounded external process invocations.
//!
//! The host runs the process and captures what happened; the library owns
//! the description of the invocation and the decision about its outcome.
//! Because execution is synchronous, the timeout can only be checked after
//! the process has already returned: an overrun aborts the current
//! operation but is detected late, never pre-empted.

use vstd::prelude::*;

verus! {

/// A process to run: command name, ordered arguments, and a timeout in
/// seconds.  Created for one call and discarded once its outcome is
/// consumed.
pub struct ProcessInvocation {
    pub program: String,
    pub args: Vec<String>,
    pub timeout_secs: u64,
}

/// What the host captured from one finished process.
pub struct ProcessOutput {
    /// The process exited with status zero.
    pub success: bool,
    /// Captured standard output, invalid bytes replaced.
    pub stdout: String,
    /// Captured standard error, invalid bytes replaced.
    pub stderr: String,
    /// Wall-clock seconds the call took.
    pub elapsed_secs: u64,
}

/// The bridge's verdict on a finished process.
pub enum BridgeOutcome {
    /// Exit status zero: the captured standard output.
    Stdout(String),
    /// The call outlived its timeout.
    Timeout,
    /// Non-zero exit status: the captured standard error as failure detail.
    Failure(String),
}

/// Decide the outcome of a finished process: an overrun of the timeout
/// wins, then a zero exit status yields the captured output, and any other
/// exit yields the captured error text.
pub fn bridge_outcome(out: ProcessOutput, timeout_secs: u64) -> (r: BridgeOutcome)
    ensures
        out.elapsed_secs > timeout_secs ==> r == BridgeOutcome::Timeout,
        out.elapsed_secs <= timeout_secs && out.success ==> r == BridgeOutcome::Stdout(out.stdout),
        out.elapsed_secs <= timeout_secs && !out.success ==> r == BridgeOutcome::Failure(
            out.stderr,
        ),
{
    if out.elapsed_secs > timeout_secs {
        BridgeOutcome::Timeout
    } else if out.success {
        BridgeOutcome::Stdout(out.stdout)
    } else {
        BridgeOutcome::Failure(out.stderr)
    }
}

} // verus!
