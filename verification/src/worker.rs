//! What the worker does around the session loop.
use vstd::prelude::*;
use crate::signal::publish;

verus! {

/// What the session loop returned.
#[derive(Clone, Copy, Debug, PartialEq, Eq, Structural)]
pub enum LoopResult {
    /// The loop ended without an error.
    Success,
    /// The loop ended with an I/O error.
    IoFailure,
}

impl LoopResult {
    /// The outcome of a worker whose loop returned this.
    pub open spec fn outcome(self) -> WorkerOutcome {
        match self {
            LoopResult::Success => WorkerOutcome::Success,
            LoopResult::IoFailure => WorkerOutcome::IoFailure,
        }
    }

    /// The outcome of a worker whose loop returned this.
    pub fn to_outcome(&self) -> (outcome: WorkerOutcome)
        ensures
            outcome == self.outcome(),
    {
        match self {
            LoopResult::Success => WorkerOutcome::Success,
            LoopResult::IoFailure => WorkerOutcome::IoFailure,
        }
    }
}

/// How the worker came to its end, as the one who joins it learns it.
#[derive(Clone, Copy, Debug, PartialEq, Eq, Structural)]
pub enum WorkerOutcome {
    /// The session loop returned without an error.
    Success,
    /// The session loop returned an I/O error.
    IoFailure,
    /// The worker panicked.
    Panicked,
}

impl WorkerOutcome {
    /// Every end but a clean return of the loop is a malfunction of the
    /// session, which the one who joins must not survive.
    pub open spec fn fatal(self) -> bool {
        self != WorkerOutcome::Success
    }

    /// What a join ends with: nothing to report after a clean return of the
    /// loop, and the outcome as an error after every other end.
    pub open spec fn verdict(self) -> Result<(), WorkerOutcome> {
        if self.fatal() {
            Err(self)
        } else {
            Ok(())
        }
    }

    /// Tells whether the one who joined has to abort on this outcome.
    pub fn is_fatal(&self) -> (fatal: bool)
        ensures
            fatal == self.fatal(),
    {
        match self {
            WorkerOutcome::Success => false,
            WorkerOutcome::IoFailure => true,
            WorkerOutcome::Panicked => true,
        }
    }
}

/// Runs the session loop to its end and then notifies of it.
///
/// The notification is given what the loop returned, so it cannot come
/// before the loop has returned; what the notification answers is ignored,
/// and the loop's result is handed back as it was.
pub fn run_then<R, F: FnOnce() -> R, N: FnOnce(&R) -> bool>(session_loop: F, notify: N) -> (result:
    R)
    requires
        session_loop.requires(()),
        forall|ended: R| session_loop.ensures((), ended) ==> notify.requires((&ended,)),
    ensures
        session_loop.ensures((), result),
        exists|delivered: bool| notify.ensures((&result,), delivered),
{
    let result = session_loop();
    let _delivered = notify(&result);
    result
}

/// The body of the worker: runs the session loop to its end, then makes the
/// one attempt to publish the completion signal, and hands back what the
/// loop returned.
///
/// The attempt comes after the loop has returned, whatever it returned, and
/// its failure is ignored: a signal that nobody listens for is no error.
pub fn run_worker<R, F: FnOnce() -> R>(
    session_loop: F,
    producer: tokio::sync::oneshot::Sender<()>,
) -> (result: R)
    requires
        session_loop.requires(()),
    ensures
        session_loop.ensures((), result),
{
    run_then(session_loop, |_ended: &R| -> (delivered: bool) { publish(producer) })
}

} // verus!
