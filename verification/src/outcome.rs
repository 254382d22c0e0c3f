//! The spawn orchestrator's terminal decision.
//!
//! On the dedicated background context the client run loop is raced against
//! the stop signal; whichever resolves first ends the run. The function here
//! decides what the completion callback is told about that end.

use vstd::prelude::*;

verus! {

/// How the background run ended: the stop signal won the race, or the client
/// loop finished first with its own result.
pub enum RunEnd {
    /// The stop signal fired before the client loop finished.
    StopRequested,
    /// The client loop finished, successfully or with a failure message.
    ClientFinished(Result<(), String>),
}

/// Decides the completion callback's argument: `None` reports success,
/// `Some` carries the failure message. A stop-triggered termination is
/// reported as success, even though it was caller-initiated; a client
/// failure is reported with the client's own message, never thrown
/// synchronously.
pub fn completion_outcome(end: RunEnd) -> (r: Option<String>)
    ensures
        r is Some <==> (end is ClientFinished && end->0 is Err),
        end is ClientFinished && end->0 is Err ==> r == Some(end->0->Err_0),
{
    match end {
        RunEnd::StopRequested => None,
        RunEnd::ClientFinished(Ok(())) => None,
        RunEnd::ClientFinished(Err(m)) => Some(m),
    }
}

} // verus!
