use background_session::error::SessionError;
use background_session::lifecycle::{
    Event, HandlePhase, Lifecycle, Refusal, SignalPhase, TokenOwner, WorkerPhase,
};
use background_session::worker::{LoopResult, WorkerOutcome};

fn run(mounted: bool, events: Vec<Event>) -> Result<Lifecycle, Refusal> {
    Lifecycle::initial(mounted).replay(&events)
}

fn reached(mounted: bool, events: Vec<Event>) -> Lifecycle {
    match run(mounted, events) {
        Ok(state) => state,
        Err(refusal) => panic!("refused: {:?}", refusal),
    }
}

#[test]
fn a_mounted_session_starts_with_its_token() {
    assert_eq!(
        Lifecycle::initial(true),
        Lifecycle {
            token: TokenOwner::Session,
            mounted: true,
            worker: WorkerPhase::Unspawned,
            signal: SignalPhase::Absent,
            handle: HandlePhase::Absent,
        }
    );
    assert_eq!(
        Lifecycle::initial(false),
        Lifecycle {
            token: TokenOwner::Released,
            mounted: false,
            worker: WorkerPhase::Unspawned,
            signal: SignalPhase::Absent,
            handle: HandlePhase::Absent,
        }
    );
}

#[test]
fn construction_starts_the_worker_at_once() {
    assert_eq!(
        Lifecycle::initial(true).step(Event::Construct),
        Ok(Lifecycle {
            token: TokenOwner::Handle,
            mounted: true,
            worker: WorkerPhase::Running,
            signal: SignalPhase::Pending,
            handle: HandlePhase::Live,
        })
    );
}

#[test]
fn construction_without_a_token_is_refused() {
    assert_eq!(
        Lifecycle::initial(false).step(Event::Construct),
        Err(Refusal::Construction(SessionError::NoActiveMount))
    );
}

#[test]
fn a_session_gives_one_handle() {
    assert_eq!(run(true, vec![Event::Construct, Event::Construct]), Err(Refusal::NotEnabled));
}

#[test]
fn join_of_a_loop_that_ends_after_the_release() {
    let state = reached(
        true,
        vec![
            Event::Construct,
            Event::Join,
            Event::LoopReturns(LoopResult::Success),
            Event::Publish,
            Event::WorkerJoined,
        ],
    );
    assert_eq!(
        state,
        Lifecycle {
            token: TokenOwner::Released,
            mounted: false,
            worker: WorkerPhase::Ended(WorkerOutcome::Success),
            signal: SignalPhase::Sent,
            handle: HandlePhase::Joined,
        }
    );
}

#[test]
fn join_after_an_unmount_from_outside_ends_alike() {
    let state = reached(
        true,
        vec![
            Event::Construct,
            Event::ExternalUnmount,
            Event::LoopReturns(LoopResult::Success),
            Event::Publish,
            Event::Join,
            Event::WorkerJoined,
        ],
    );
    assert_eq!(state.handle, HandlePhase::Joined);
    assert_eq!(state.token, TokenOwner::Released);
    assert!(!state.mounted);
    assert_eq!(state.worker, WorkerPhase::Ended(WorkerOutcome::Success));
}

#[test]
fn join_releases_at_once_and_cannot_end_before_the_worker() {
    let joining = reached(true, vec![Event::Construct, Event::Join]);
    assert_eq!(joining.token, TokenOwner::Released);
    assert!(!joining.mounted);
    assert_eq!(joining.worker, WorkerPhase::Running);
    assert_eq!(joining.step(Event::WorkerJoined), Err(Refusal::NotEnabled));
    let returned = joining.step(Event::LoopReturns(LoopResult::Success)).unwrap();
    assert_eq!(returned.step(Event::WorkerJoined), Err(Refusal::NotEnabled));
}

#[test]
fn join_aborts_on_a_failed_loop() {
    let state = reached(
        true,
        vec![
            Event::Construct,
            Event::LoopReturns(LoopResult::IoFailure),
            Event::Publish,
            Event::Join,
            Event::WorkerJoined,
        ],
    );
    assert_eq!(state.handle, HandlePhase::Aborted);
    assert_eq!(state.worker, WorkerPhase::Ended(WorkerOutcome::IoFailure));
    assert!(!state.mounted);
}

#[test]
fn join_aborts_on_a_panicked_worker() {
    let state =
        reached(true, vec![Event::Construct, Event::Join, Event::WorkerPanics, Event::WorkerJoined]);
    assert_eq!(state.handle, HandlePhase::Aborted);
    assert_eq!(state.worker, WorkerPhase::Ended(WorkerOutcome::Panicked));
    assert_eq!(state.signal, SignalPhase::Abandoned);
}

#[test]
fn await_umount_does_not_resolve_while_the_loop_runs() {
    let waiting = reached(true, vec![Event::Construct, Event::AwaitUmount]);
    assert_eq!(waiting.token, TokenOwner::Handle);
    assert!(waiting.mounted);
    assert_eq!(waiting.step(Event::SignalObserved), Err(Refusal::NotEnabled));
    let unmounted = waiting.step(Event::ExternalUnmount).unwrap();
    assert_eq!(unmounted.step(Event::SignalObserved), Err(Refusal::NotEnabled));
    let returned = unmounted.step(Event::LoopReturns(LoopResult::Success)).unwrap();
    assert_eq!(returned.step(Event::SignalObserved), Err(Refusal::NotEnabled));
}

#[test]
fn await_umount_resolves_once_after_an_unmount_from_outside() {
    let events = vec![
        Event::Construct,
        Event::AwaitUmount,
        Event::ExternalUnmount,
        Event::LoopReturns(LoopResult::Success),
        Event::Publish,
        Event::SignalObserved,
    ];
    let state = reached(true, events.clone());
    assert_eq!(
        state,
        Lifecycle {
            token: TokenOwner::Released,
            mounted: false,
            worker: WorkerPhase::Ended(WorkerOutcome::Success),
            signal: SignalPhase::Sent,
            handle: HandlePhase::Resolved,
        }
    );
    let mut twice = events;
    twice.push(Event::SignalObserved);
    assert_eq!(run(true, twice), Err(Refusal::NotEnabled));
}

#[test]
fn await_umount_sees_the_same_signal_after_a_failed_loop() {
    let before = reached(true, vec![Event::Construct, Event::AwaitUmount]);
    let good = before
        .replay(&vec![Event::LoopReturns(LoopResult::Success), Event::Publish, Event::SignalObserved])
        .unwrap();
    let bad = before
        .replay(&vec![
            Event::LoopReturns(LoopResult::IoFailure),
            Event::Publish,
            Event::SignalObserved,
        ])
        .unwrap();
    assert_eq!(good.signal, SignalPhase::Sent);
    assert_eq!(bad.signal, SignalPhase::Sent);
    assert_eq!(good.handle, HandlePhase::Resolved);
    assert_eq!(bad.handle, HandlePhase::Resolved);
    assert_eq!(bad.token, TokenOwner::Released);
    assert!(!bad.mounted);
}

#[test]
fn await_umount_resolves_when_the_producer_is_gone() {
    let state = reached(
        true,
        vec![Event::Construct, Event::AwaitUmount, Event::WorkerPanics, Event::SignalObserved],
    );
    assert_eq!(state.signal, SignalPhase::Abandoned);
    assert_eq!(state.handle, HandlePhase::Resolved);
}

#[test]
fn a_cancelled_wait_releases_the_token_and_leaves_the_worker() {
    let state = reached(true, vec![Event::Construct, Event::AwaitUmount, Event::Cancel]);
    assert_eq!(
        state,
        Lifecycle {
            token: TokenOwner::Released,
            mounted: false,
            worker: WorkerPhase::Running,
            signal: SignalPhase::Pending,
            handle: HandlePhase::Dropped,
        }
    );
}

#[test]
fn a_dropped_handle_releases_the_token_and_leaves_the_worker() {
    let state = reached(true, vec![Event::Construct, Event::Discard]);
    assert_eq!(
        state,
        Lifecycle {
            token: TokenOwner::Released,
            mounted: false,
            worker: WorkerPhase::Running,
            signal: SignalPhase::Pending,
            handle: HandlePhase::Dropped,
        }
    );
    // The worker outlives the handle, and nobody hears its signal.
    let later = state
        .replay(&vec![Event::LoopReturns(LoopResult::Success), Event::Publish])
        .unwrap();
    assert_eq!(later.worker, WorkerPhase::Ended(WorkerOutcome::Success));
    assert_eq!(later.signal, SignalPhase::Unheard);
}

#[test]
fn a_handle_is_used_once() {
    let uses = [Event::Join, Event::AwaitUmount, Event::Discard];
    for first in uses {
        for second in uses {
            assert_eq!(run(true, vec![Event::Construct, first, second]), Err(Refusal::NoLiveHandle));
        }
    }
    for second in uses {
        assert_eq!(run(true, vec![second]), Err(Refusal::NoLiveHandle));
    }
}

#[test]
fn an_unmounted_mount_point_is_not_unmounted_again() {
    assert_eq!(
        run(true, vec![Event::Construct, Event::ExternalUnmount, Event::ExternalUnmount]),
        Err(Refusal::NotEnabled)
    );
    assert_eq!(run(true, vec![Event::Construct, Event::Join, Event::ExternalUnmount]), Err(Refusal::NotEnabled));
}

#[test]
fn the_worker_ends_once() {
    let ended = reached(
        true,
        vec![Event::Construct, Event::LoopReturns(LoopResult::Success), Event::Publish],
    );
    assert_eq!(ended.step(Event::Publish), Err(Refusal::NotEnabled));
    assert_eq!(ended.step(Event::WorkerPanics), Err(Refusal::NotEnabled));
    assert_eq!(ended.step(Event::LoopReturns(LoopResult::Success)), Err(Refusal::NotEnabled));
    assert_eq!(Lifecycle::initial(true).step(Event::Publish), Err(Refusal::NotEnabled));
    assert_eq!(Lifecycle::initial(true).step(Event::WorkerPanics), Err(Refusal::NotEnabled));
}

#[test]
fn replay_stops_at_the_first_refusal() {
    assert_eq!(
        run(false, vec![Event::Construct, Event::Join]),
        Err(Refusal::Construction(SessionError::NoActiveMount))
    );
    assert_eq!(run(true, vec![]), Ok(Lifecycle::initial(true)));
    assert_eq!(
        run(true, vec![Event::Construct, Event::Cancel, Event::Join]),
        Err(Refusal::NotEnabled)
    );
}

#[test]
fn the_error_of_a_missing_mount_has_a_code() {
    assert_ne!(SessionError::NoActiveMount.raw_os_error(), 0);
    assert_eq!(SessionError::NoActiveMount.raw_os_error(), libc::ENODEV);
}
