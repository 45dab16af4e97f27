//! What holds of every state that the transition system of a session can
//! reach.
//!
//! These are laws of the events and states of `lifecycle`. They say what the
//! order of events allows; of the threads and channels that a handle runs
//! on, they say nothing.
use vstd::prelude::*;
use crate::error::SessionError;
use crate::lifecycle::{Event, HandlePhase, Lifecycle, Refusal, SignalPhase, TokenOwner, WorkerPhase};
use crate::worker::{LoopResult, WorkerOutcome};

verus! {

impl Lifecycle {
    /// The worker has left the session loop for good: it has ended, by a
    /// return of the loop or by a panic.
    pub open spec fn worker_ended(self) -> bool {
        self.worker is Ended
    }

    /// The handle was used up: by `join`, by `await_umount`, or by a drop.
    pub open spec fn handle_consumed(self) -> bool {
        self.handle != HandlePhase::Absent && self.handle != HandlePhase::Live
    }

    /// The parts of a state agree with each other.
    pub open spec fn consistent(self) -> bool {
        &&& self.token == TokenOwner::Released ==> !self.mounted
        &&& self.handle == HandlePhase::Absent ==> self.token != TokenOwner::Handle
        &&& self.handle == HandlePhase::Absent <==> self.worker == WorkerPhase::Unspawned
        &&& self.handle == HandlePhase::Live || self.handle == HandlePhase::Awaiting
            ==> self.token == TokenOwner::Handle
        &&& self.handle_consumed() && self.handle != HandlePhase::Awaiting ==> self.token
            == TokenOwner::Released
        &&& self.handle == HandlePhase::Joined ==> self.worker == WorkerPhase::Ended(
            WorkerOutcome::Success,
        )
        &&& self.handle == HandlePhase::Aborted ==> (self.worker matches WorkerPhase::Ended(outcome)
            && outcome.fatal())
        &&& self.handle == HandlePhase::Resolved ==> self.signal == SignalPhase::Sent || self.signal
            == SignalPhase::Abandoned
        &&& self.signal == SignalPhase::Unheard ==> !self.consumer_alive()
        &&& match self.signal {
            SignalPhase::Absent => self.worker == WorkerPhase::Unspawned,
            SignalPhase::Pending => self.worker == WorkerPhase::Running || self.worker is Returned,
            SignalPhase::Sent | SignalPhase::Unheard => (self.worker matches WorkerPhase::Ended(
                outcome,
            ) && outcome != WorkerOutcome::Panicked),
            SignalPhase::Abandoned => self.worker == WorkerPhase::Ended(WorkerOutcome::Panicked),
        }
    }
}

/// How many events of a run use up the handle.
pub open spec fn consumptions(events: Seq<Event>) -> nat
    decreases events.len(),
{
    if events.len() == 0 {
        0
    } else {
        consumptions(events.drop_last()) + if events.last().consumes_handle() {
            1nat
        } else {
            0nat
        }
    }
}

/// A step from a consistent state leads to a consistent state.
pub proof fn step_keeps_consistency(state: Lifecycle, event: Event)
    requires
        state.consistent(),
    ensures
        state.next(event) matches Ok(after) ==> after.consistent(),
{
}

/// Every state that a session reaches from its start is consistent.
pub proof fn reachable_states_are_consistent(mounted: bool, events: Seq<Event>)
    ensures
        Lifecycle::initial_state(mounted).after(events) matches Ok(state) ==> state.consistent(),
    decreases events.len(),
{
    let start = Lifecycle::initial_state(mounted);
    if events.len() > 0 {
        reachable_states_are_consistent(mounted, events.drop_last());
        if let Ok(before) = start.after(events.drop_last()) {
            step_keeps_consistency(before, events.last());
        }
    }
}

/// The event `Construct` is admitted exactly by a state in which the
/// session holds its token. It leads to a state in which the worker runs,
/// the token is the handle's and the signal is pending. Without a token the
/// event is refused for want of an active mount, and a refused event leaves
/// no state: the worker stays unspawned.
pub proof fn construction_needs_the_token(state: Lifecycle)
    requires
        state.handle == HandlePhase::Absent,
    ensures
        state.next(Event::Construct) is Ok <==> state.token == TokenOwner::Session,
        state.token != TokenOwner::Session ==> state.next(Event::Construct) == Err::<
            Lifecycle,
            Refusal,
        >(Refusal::Construction(SessionError::NoActiveMount)),
        state.next(Event::Construct) matches Ok(after) ==> {
            &&& after.handle == HandlePhase::Live
            &&& after.worker == WorkerPhase::Running
            &&& after.token == TokenOwner::Handle
            &&& after.signal == SignalPhase::Pending
            &&& after.mounted == state.mounted
        },
{
}

/// In every reachable state whose handle is `Joined` or `Aborted`, that
/// is after the events `Join` and `WorkerJoined`, the token is released, the
/// mount point is inactive and the worker has ended, however the loop came
/// to its end. The handle is `Joined` exactly if the worker ended in
/// success.
pub proof fn join_unmounts_and_reaps(mounted: bool, events: Seq<Event>)
    ensures
        Lifecycle::initial_state(mounted).after(events) matches Ok(state) ==> (state.handle
            == HandlePhase::Joined || state.handle == HandlePhase::Aborted ==> {
            &&& state.token == TokenOwner::Released
            &&& !state.mounted
            &&& state.worker_ended()
            &&& state.handle == HandlePhase::Joined <==> state.worker == WorkerPhase::Ended(
                WorkerOutcome::Success,
            )
        }),
{
    reachable_states_are_consistent(mounted, events);
}

/// The event `WorkerJoined` is admitted by a joining state exactly when
/// the worker has ended. It leads to `Joined` if the verdict on the
/// worker's outcome is `Ok`, and to `Aborted` on every other outcome.
pub proof fn join_returns_only_on_success(state: Lifecycle)
    requires
        state.handle == HandlePhase::Joining,
    ensures
        state.next(Event::WorkerJoined) is Ok <==> state.worker_ended(),
        state.next(Event::WorkerJoined) matches Ok(after) ==> {
            &&& state.worker matches WorkerPhase::Ended(outcome)
            &&& after.handle == (if outcome.fatal() {
                HandlePhase::Aborted
            } else {
                HandlePhase::Joined
            })
            &&& after.handle == HandlePhase::Joined <==> outcome.verdict() is Ok
            &&& after == (Lifecycle { handle: after.handle, ..state })
        },
{
}

/// In every reachable state whose handle is `Resolved`, that is after the
/// event `SignalObserved`, the worker has left the loop for good.
pub proof fn resolution_follows_the_end_of_the_loop(mounted: bool, events: Seq<Event>)
    ensures
        Lifecycle::initial_state(mounted).after(events) matches Ok(state) ==> (state.handle
            == HandlePhase::Resolved ==> state.worker_ended()),
{
    reachable_states_are_consistent(mounted, events);
}

/// A consistent state that awaits admits the event `SignalObserved` exactly
/// when the worker has ended, whatever ended it. The event releases the
/// token, and is not admitted a second time.
pub proof fn wait_resolves_once_the_worker_ended(state: Lifecycle)
    requires
        state.consistent(),
        state.handle == HandlePhase::Awaiting,
    ensures
        state.next(Event::SignalObserved) is Ok <==> state.worker_ended(),
        state.next(Event::SignalObserved) matches Ok(after) ==> after == state.released_into(
            HandlePhase::Resolved,
        ),
        state.next(Event::SignalObserved) matches Ok(after) ==> after.next(Event::SignalObserved)
            is Err,
{
}

/// The event `Publish` does not depend on what the loop returned: it leads
/// to the same signal and the same handle after a success and after a
/// failure.
pub proof fn signal_is_blind_to_the_result(state: Lifecycle, one: LoopResult, other: LoopResult)
    ensures
        (Lifecycle { worker: WorkerPhase::Returned(one), ..state }).next(Event::Publish) matches Ok(
            first,
        ) && (Lifecycle { worker: WorkerPhase::Returned(other), ..state }).next(
            Event::Publish,
        ) matches Ok(second) && first.signal == second.signal && first.handle == second.handle,
{
}

/// The event `Discard` is admitted by every state with a live handle,
/// whatever the worker is doing. It releases the token and leaves worker and
/// signal as they were.
pub proof fn discard_releases_without_waiting(state: Lifecycle)
    requires
        state.handle == HandlePhase::Live,
    ensures
        state.next(Event::Discard) matches Ok(after) && {
            &&& after.token == TokenOwner::Released
            &&& !after.mounted
            &&& after.worker == state.worker
            &&& after.signal == state.signal
            &&& after.handle == HandlePhase::Dropped
        },
{
}

/// A handle that was used up, or that does not exist, admits none of the
/// events that use one up.
pub proof fn consumed_handle_admits_no_use(state: Lifecycle, event: Event)
    requires
        event.consumes_handle(),
        state.handle != HandlePhase::Live,
    ensures
        state.next(event) == Err::<Lifecycle, Refusal>(Refusal::NoLiveHandle),
{
}

/// In every run that a session admits, the handle is used up at most once,
/// and it is used up exactly when it is neither absent nor live.
pub proof fn handle_is_consumed_at_most_once(mounted: bool, events: Seq<Event>)
    ensures
        Lifecycle::initial_state(mounted).after(events) matches Ok(state) ==> {
            &&& consumptions(events) <= 1
            &&& consumptions(events) == 1 <==> state.handle_consumed()
        },
    decreases events.len(),
{
    if events.len() > 0 {
        handle_is_consumed_at_most_once(mounted, events.drop_last());
    }
}

} // verus!
