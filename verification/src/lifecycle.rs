//! The lifecycle of one mounted session, as a transition system.
//!
//! A state records who owns the mount token, whether the mount point is
//! active, how far the worker has come, what became of the completion signal
//! and what became of the handle. An event is a step of the handle's owner,
//! of the worker, or of somebody who unmounts from outside. `step` says which
//! events a state admits and what they lead to; the laws at the end hold of
//! every state that can be reached.
use vstd::prelude::*;
use crate::error::SessionError;
use crate::worker::{LoopResult, WorkerOutcome};

verus! {

/// Who owns the mount token.
#[derive(Clone, Copy, Debug, PartialEq, Eq, Structural)]
pub enum TokenOwner {
    /// The session, before a handle is constructed from it.
    Session,
    /// The handle.
    Handle,
    /// Nobody: the token was released, or there never was one.
    Released,
}

/// How far the worker has come.
#[derive(Clone, Copy, Debug, PartialEq, Eq, Structural)]
pub enum WorkerPhase {
    /// No worker was started.
    Unspawned,
    /// The worker is in the session loop.
    Running,
    /// The loop has returned; the signal has not been attempted yet.
    Returned(LoopResult),
    /// The worker has ended.
    Ended(WorkerOutcome),
}

/// What became of the completion signal.
#[derive(Clone, Copy, Debug, PartialEq, Eq, Structural)]
pub enum SignalPhase {
    /// There is no channel.
    Absent,
    /// Nothing was sent yet.
    Pending,
    /// The worker sent, and the consuming end was there.
    Sent,
    /// The worker tried to send after the consuming end was discarded.
    Unheard,
    /// The producing end went away without having sent.
    Abandoned,
}

/// What became of the handle.
#[derive(Clone, Copy, Debug, PartialEq, Eq, Structural)]
pub enum HandlePhase {
    /// No handle was constructed.
    Absent,
    /// The handle exists and was not used.
    Live,
    /// `join` released the token and waits for the worker.
    Joining,
    /// `join` returned.
    Joined,
    /// `join` met a worker that failed, and aborted.
    Aborted,
    /// `await_umount` waits for the signal.
    Awaiting,
    /// `await_umount` resolved.
    Resolved,
    /// The handle was dropped, or its wait was cancelled.
    Dropped,
}

/// One step in the life of a session.
#[derive(Clone, Copy, Debug, PartialEq, Eq, Structural)]
pub enum Event {
    /// A handle is constructed from the session.
    Construct,
    /// Somebody else unmounts the filesystem.
    ExternalUnmount,
    /// The session loop returns.
    LoopReturns(LoopResult),
    /// The worker makes its attempt to send the signal, and ends.
    Publish,
    /// The worker panics in the loop.
    WorkerPanics,
    /// `join` is called: the token is released.
    Join,
    /// The wait of `join` for the worker comes to its end.
    WorkerJoined,
    /// `await_umount` is called.
    AwaitUmount,
    /// The wait of `await_umount` sees the signal, or the channel closed.
    SignalObserved,
    /// The task that waits in `await_umount` is cancelled.
    Cancel,
    /// The handle is dropped unused.
    Discard,
}

/// Why a state does not admit an event.
#[derive(Clone, Copy, Debug, PartialEq, Eq, Structural)]
pub enum Refusal {
    /// A handle cannot be constructed.
    Construction(SessionError),
    /// The event needs a handle that was not used, and there is none.
    NoLiveHandle,
    /// The event cannot happen yet, or cannot happen any more.
    NotEnabled,
}

/// The state of one session.
#[derive(Clone, Copy, Debug, PartialEq, Eq, Structural)]
pub struct Lifecycle {
    pub token: TokenOwner,
    pub mounted: bool,
    pub worker: WorkerPhase,
    pub signal: SignalPhase,
    pub handle: HandlePhase,
}

impl Event {
    /// The events by which the owner of a handle uses it up.
    pub open spec fn consumes_handle(self) -> bool {
        self == Event::Join || self == Event::AwaitUmount || self == Event::Discard
    }
}

impl Lifecycle {
    /// A session before anything happened to it, mounted or not.
    pub open spec fn initial_state(mounted: bool) -> Lifecycle {
        Lifecycle {
            token: if mounted { TokenOwner::Session } else { TokenOwner::Released },
            mounted,
            worker: WorkerPhase::Unspawned,
            signal: SignalPhase::Absent,
            handle: HandlePhase::Absent,
        }
    }

    /// The state with the token released and the handle in the given phase.
    pub open spec fn released_into(self, handle: HandlePhase) -> Lifecycle {
        Lifecycle { token: TokenOwner::Released, mounted: false, handle, ..self }
    }

    /// The consuming end of the signal is there as long as the handle is, up
    /// to the end of a join or of a wait.
    pub open spec fn consumer_alive(self) -> bool {
        self.handle == HandlePhase::Live || self.handle == HandlePhase::Joining || self.handle
            == HandlePhase::Awaiting
    }

    /// What an event leads to, or why the state does not admit it.
    pub open spec fn next(self, event: Event) -> Result<Lifecycle, Refusal> {
        match event {
            Event::Construct => if self.handle != HandlePhase::Absent {
                Err(Refusal::NotEnabled)
            } else if self.token != TokenOwner::Session {
                Err(Refusal::Construction(SessionError::NoActiveMount))
            } else {
                Ok(
                    Lifecycle {
                        token: TokenOwner::Handle,
                        worker: WorkerPhase::Running,
                        signal: SignalPhase::Pending,
                        handle: HandlePhase::Live,
                        ..self
                    },
                )
            },
            Event::ExternalUnmount => if self.mounted {
                Ok(Lifecycle { mounted: false, ..self })
            } else {
                Err(Refusal::NotEnabled)
            },
            Event::LoopReturns(result) => if self.worker == WorkerPhase::Running {
                Ok(Lifecycle { worker: WorkerPhase::Returned(result), ..self })
            } else {
                Err(Refusal::NotEnabled)
            },
            Event::Publish => match self.worker {
                WorkerPhase::Returned(result) => Ok(
                    Lifecycle {
                        worker: WorkerPhase::Ended(result.outcome()),
                        signal: if self.consumer_alive() {
                            SignalPhase::Sent
                        } else {
                            SignalPhase::Unheard
                        },
                        ..self
                    },
                ),
                _ => Err(Refusal::NotEnabled),
            },
            Event::WorkerPanics => if self.worker == WorkerPhase::Running {
                Ok(
                    Lifecycle {
                        worker: WorkerPhase::Ended(WorkerOutcome::Panicked),
                        signal: SignalPhase::Abandoned,
                        ..self
                    },
                )
            } else {
                Err(Refusal::NotEnabled)
            },
            Event::Join => if self.handle == HandlePhase::Live {
                Ok(self.released_into(HandlePhase::Joining))
            } else {
                Err(Refusal::NoLiveHandle)
            },
            Event::WorkerJoined => match self.worker {
                WorkerPhase::Ended(outcome) => if self.handle == HandlePhase::Joining {
                    Ok(
                        Lifecycle {
                            handle: if outcome.fatal() {
                                HandlePhase::Aborted
                            } else {
                                HandlePhase::Joined
                            },
                            ..self
                        },
                    )
                } else {
                    Err(Refusal::NotEnabled)
                },
                _ => Err(Refusal::NotEnabled),
            },
            Event::AwaitUmount => if self.handle == HandlePhase::Live {
                Ok(Lifecycle { handle: HandlePhase::Awaiting, ..self })
            } else {
                Err(Refusal::NoLiveHandle)
            },
            Event::SignalObserved => if self.handle == HandlePhase::Awaiting && (self.signal
                == SignalPhase::Sent || self.signal == SignalPhase::Abandoned) {
                Ok(self.released_into(HandlePhase::Resolved))
            } else {
                Err(Refusal::NotEnabled)
            },
            Event::Cancel => if self.handle == HandlePhase::Awaiting {
                Ok(self.released_into(HandlePhase::Dropped))
            } else {
                Err(Refusal::NotEnabled)
            },
            Event::Discard => if self.handle == HandlePhase::Live {
                Ok(self.released_into(HandlePhase::Dropped))
            } else {
                Err(Refusal::NoLiveHandle)
            },
        }
    }

    /// A session before anything happened to it, mounted or not.
    pub fn initial(mounted: bool) -> (state: Lifecycle)
        ensures
            state == Lifecycle::initial_state(mounted),
    {
        Lifecycle {
            token: if mounted { TokenOwner::Session } else { TokenOwner::Released },
            mounted,
            worker: WorkerPhase::Unspawned,
            signal: SignalPhase::Absent,
            handle: HandlePhase::Absent,
        }
    }

    fn release_into(&self, handle: HandlePhase) -> (state: Lifecycle)
        ensures
            state == self.released_into(handle),
    {
        Lifecycle {
            token: TokenOwner::Released,
            mounted: false,
            worker: self.worker,
            signal: self.signal,
            handle,
        }
    }

    /// Takes one step: the state that the event leads to, or why the event
    /// is refused. A refused event changes nothing.
    pub fn step(&self, event: Event) -> (after: Result<Lifecycle, Refusal>)
        ensures
            after == self.next(event),
    {
        let live = matches!(self.handle, HandlePhase::Live);
        let awaiting = matches!(self.handle, HandlePhase::Awaiting);
        let running = matches!(self.worker, WorkerPhase::Running);
        match event {
            Event::Construct => {
                if !matches!(self.handle, HandlePhase::Absent) {
                    Err(Refusal::NotEnabled)
                } else if !matches!(self.token, TokenOwner::Session) {
                    Err(Refusal::Construction(SessionError::NoActiveMount))
                } else {
                    Ok(
                        Lifecycle {
                            token: TokenOwner::Handle,
                            mounted: self.mounted,
                            worker: WorkerPhase::Running,
                            signal: SignalPhase::Pending,
                            handle: HandlePhase::Live,
                        },
                    )
                }
            },
            Event::ExternalUnmount => {
                if self.mounted {
                    Ok(Lifecycle { mounted: false, ..*self })
                } else {
                    Err(Refusal::NotEnabled)
                }
            },
            Event::LoopReturns(result) => {
                if running {
                    Ok(Lifecycle { worker: WorkerPhase::Returned(result), ..*self })
                } else {
                    Err(Refusal::NotEnabled)
                }
            },
            Event::Publish => match self.worker {
                WorkerPhase::Returned(result) => {
                    let heard = live || awaiting || matches!(self.handle, HandlePhase::Joining);
                    Ok(
                        Lifecycle {
                            worker: WorkerPhase::Ended(result.to_outcome()),
                            signal: if heard {
                                SignalPhase::Sent
                            } else {
                                SignalPhase::Unheard
                            },
                            ..*self
                        },
                    )
                },
                _ => Err(Refusal::NotEnabled),
            },
            Event::WorkerPanics => {
                if running {
                    Ok(
                        Lifecycle {
                            worker: WorkerPhase::Ended(WorkerOutcome::Panicked),
                            signal: SignalPhase::Abandoned,
                            ..*self
                        },
                    )
                } else {
                    Err(Refusal::NotEnabled)
                }
            },
            Event::Join => {
                if live {
                    Ok(self.release_into(HandlePhase::Joining))
                } else {
                    Err(Refusal::NoLiveHandle)
                }
            },
            Event::WorkerJoined => match self.worker {
                WorkerPhase::Ended(outcome) => {
                    if matches!(self.handle, HandlePhase::Joining) {
                        Ok(
                            Lifecycle {
                                handle: if outcome.is_fatal() {
                                    HandlePhase::Aborted
                                } else {
                                    HandlePhase::Joined
                                },
                                ..*self
                            },
                        )
                    } else {
                        Err(Refusal::NotEnabled)
                    }
                },
                _ => Err(Refusal::NotEnabled),
            },
            Event::AwaitUmount => {
                if live {
                    Ok(Lifecycle { handle: HandlePhase::Awaiting, ..*self })
                } else {
                    Err(Refusal::NoLiveHandle)
                }
            },
            Event::SignalObserved => {
                if awaiting && matches!(self.signal, SignalPhase::Sent | SignalPhase::Abandoned) {
                    Ok(self.release_into(HandlePhase::Resolved))
                } else {
                    Err(Refusal::NotEnabled)
                }
            },
            Event::Cancel => {
                if awaiting {
                    Ok(self.release_into(HandlePhase::Dropped))
                } else {
                    Err(Refusal::NotEnabled)
                }
            },
            Event::Discard => {
                if live {
                    Ok(self.release_into(HandlePhase::Dropped))
                } else {
                    Err(Refusal::NoLiveHandle)
                }
            },
        }
    }

    /// What a run of events leads to, taken in order from this state, or the
    /// refusal of the first event that is not admitted.
    pub open spec fn after(self, events: Seq<Event>) -> Result<Lifecycle, Refusal>
        decreases events.len(),
    {
        if events.len() == 0 {
            Ok(self)
        } else {
            match self.after(events.drop_last()) {
                Ok(state) => state.next(events.last()),
                Err(refusal) => Err(refusal),
            }
        }
    }

    /// Takes the events in order, and stops at the first that is refused.
    pub fn replay(&self, events: &Vec<Event>) -> (after: Result<Lifecycle, Refusal>)
        ensures
            after == self.after(events@),
    {
        let mut state = *self;
        let mut done: usize = 0;
        while done < events.len()
            invariant
                done <= events.len(),
                self.after(events@.take(done as int)) == Ok::<Lifecycle, Refusal>(state),
            decreases events.len() - done,
        {
            proof {
                assert(events@.take(done + 1).drop_last() == events@.take(done as int));
            }
            match state.step(events[done]) {
                Ok(next) => {
                    state = next;
                },
                Err(refusal) => {
                    proof {
                        lemma_refusal_stays(*self, events@, done + 1);
                    }
                    return Err(refusal);
                },
            }
            done = done + 1;
        }
        proof {
            assert(events@.take(done as int) == events@);
        }
        Ok(state)
    }
}

/// Once a prefix of a run is refused, the whole run is refused in the same
/// way.
proof fn lemma_refusal_stays(start: Lifecycle, events: Seq<Event>, upto: int)
    requires
        0 <= upto <= events.len(),
        start.after(events.take(upto)) is Err,
    ensures
        start.after(events) == start.after(events.take(upto)),
    decreases events.len() - upto,
{
    if upto == events.len() {
        assert(events.take(upto) == events);
    } else {
        assert(events.take(upto + 1).drop_last() == events.take(upto));
        lemma_refusal_stays(start, events, upto + 1);
    }
}

} // verus!
