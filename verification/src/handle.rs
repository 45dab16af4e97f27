//! The handle of a session that runs in the background.
use vstd::prelude::*;
use crate::diagnostic::{debug_text, quote, render, rendering};
use crate::error::SessionError;
use crate::signal::completion_channel;
use crate::worker::WorkerOutcome;

verus! {

/// A session whose loop runs on a worker of its own.
///
/// `M` is the mount token, whose release unmounts the filesystem, and `G` is
/// what the worker can be joined by. The handle owns both, and the consuming
/// end of the completion signal. It can be neither copied nor cloned, and
/// `join` and `await_umount` take it by value: one handle is used up once.
pub struct AsyncBackgroundSession<M, G> {
    mountpoint: String,
    guard: G,
    mount: M,
    receiver: tokio::sync::oneshot::Receiver<()>,
}

/// A refused construction: the reason, and the session and the launcher as
/// they were given. The launcher was never called.
pub struct ConstructionError<S, F> {
    pub kind: SessionError,
    pub session: S,
    pub spawn: F,
}

/// What is left of a handle that gave itself up to wait for the unmount.
///
/// It holds the mount token, which is released when this value is dropped,
/// and what the worker could be joined by, which it never gives out: the
/// worker is left to end by itself.
pub struct Suspended<M, G> {
    guard: G,
    mount: M,
}

impl<M, G> Suspended<M, G> {
    /// The mount token that is still held.
    pub closed spec fn token(&self) -> M {
        self.mount
    }

    /// What the worker could be joined by.
    pub closed spec fn worker(&self) -> G {
        self.guard
    }
}

impl<M, G> AsyncBackgroundSession<M, G> {
    /// The path of the mount point.
    pub closed spec fn path(&self) -> Seq<char> {
        self.mountpoint@
    }

    /// The mount token that the handle owns.
    pub closed spec fn token(&self) -> M {
        self.mount
    }

    /// What the worker can be joined by.
    pub closed spec fn worker(&self) -> G {
        self.guard
    }

    /// The consuming end of the completion signal.
    pub closed spec fn consumer(&self) -> tokio::sync::oneshot::Receiver<()> {
        self.receiver
    }

    /// Starts the worker of a mounted session on a channel that is given,
    /// and returns the handle.
    ///
    /// `mount` is the token taken from the session, `session` is the rest of
    /// the session, and `spawn` starts the worker on it. Without a token
    /// nothing is started: the session and the launcher come back in the
    /// error. With one, the worker was started on the session with the
    /// producing end of the channel, and the handle holds the consuming end
    /// of the same channel.
    pub fn with_signal<S, F: FnOnce(S, tokio::sync::oneshot::Sender<()>) -> G>(
        mountpoint: String,
        mount: Option<M>,
        session: S,
        ends: (tokio::sync::oneshot::Sender<()>, tokio::sync::oneshot::Receiver<()>),
        spawn: F,
    ) -> (made: Result<Self, ConstructionError<S, F>>)
        requires
            spawn.requires((session, ends.0)),
        ensures
            made is Ok <==> mount is Some,
            made matches Err(e) ==> e.kind == SessionError::NoActiveMount && e.session == session
                && e.spawn == spawn,
            made matches Ok(handle) ==> handle.path() == mountpoint@,
            made matches Ok(handle) ==> handle.token() == mount->0,
            made matches Ok(handle) ==> spawn.ensures((session, ends.0), handle.worker()),
            made matches Ok(handle) ==> handle.consumer() == ends.1,
    {
        let (producer, receiver) = ends;
        match mount {
            None => Err(ConstructionError { kind: SessionError::NoActiveMount, session, spawn }),
            Some(token) => {
                let guard = spawn(session, producer);
                Ok(AsyncBackgroundSession { mountpoint, guard, mount: token, receiver })
            },
        }
    }

    /// Starts the worker of a mounted session and returns its handle.
    ///
    /// A channel for the completion signal is made, and the rest is
    /// `with_signal`: without a token nothing is started and the session
    /// and the launcher come back in the error; with one, the worker has
    /// been started when the handle is returned.
    pub fn new<S, F: FnOnce(S, tokio::sync::oneshot::Sender<()>) -> G>(
        mountpoint: String,
        mount: Option<M>,
        session: S,
        spawn: F,
    ) -> (made: Result<Self, ConstructionError<S, F>>)
        requires
            forall|producer: tokio::sync::oneshot::Sender<()>|
                spawn.requires((session, producer)),
        ensures
            made is Ok <==> mount is Some,
            made matches Err(e) ==> e.kind == SessionError::NoActiveMount && e.session == session
                && e.spawn == spawn,
            made matches Ok(handle) ==> handle.path() == mountpoint@,
            made matches Ok(handle) ==> handle.token() == mount->0,
            made matches Ok(handle) ==> exists|producer: tokio::sync::oneshot::Sender<()>|
                spawn.ensures((session, producer), handle.worker()),
    {
        let ends = completion_channel();
        Self::with_signal(mountpoint, mount, session, ends, spawn)
    }

    /// The path of the mount point.
    pub fn mountpoint(&self) -> (path: &String)
        ensures
            path@ == self.path(),
    {
        &self.mountpoint
    }

    /// The handle as text, for diagnostics: the mount point as a quoted
    /// string, and a marker in place of the worker.
    pub fn describe(&self) -> (text: String)
        ensures
            text@ == rendering(debug_text(self.path())),
    {
        let shown = quote(self.mountpoint.as_str());
        render(shown.as_str())
    }

    /// Unmounts the filesystem and joins the worker.
    ///
    /// `release` releases the mount token, so that a worker that waits for
    /// a request sees the end of its input. `wait` then blocks until the
    /// worker has ended; it is given what the release returned, so it cannot
    /// begin before the token is released. After a clean return of the loop
    /// there is nothing to report. Every other outcome comes back as an
    /// error, on which the caller aborts: it is a malfunction of the
    /// session, not a condition to recover from.
    #[must_use]
    pub fn join<U, R: FnOnce(M) -> U, W: FnOnce(G, U) -> WorkerOutcome>(
        self,
        release: R,
        wait: W,
    ) -> (ended: Result<(), WorkerOutcome>)
        requires
            release.requires((self.token(),)),
            forall|freed: U|
                release.ensures((self.token(),), freed) ==> wait.requires((self.worker(), freed)),
        ensures
            exists|freed: U, outcome: WorkerOutcome|
                {
                    &&& release.ensures((self.token(),), freed)
                    &&& wait.ensures((self.worker(), freed), outcome)
                    &&& ended == outcome.verdict()
                },
    {
        let AsyncBackgroundSession { mountpoint: _, guard, mount, receiver: _ } = self;
        let freed = release(mount);
        let outcome = wait(guard, freed);
        proof {
            assert(release.ensures((self.token(),), freed) && wait.ensures(
                (self.worker(), freed),
                outcome,
            ));
        }
        if outcome.is_fatal() {
            Err(outcome)
        } else {
            Ok(())
        }
    }

    /// Gives up the handle to wait for the unmount.
    ///
    /// The consuming end of the signal is handed out to be waited on. The
    /// mount token is not released and the worker is not ended: both stay in
    /// the second part of what is returned, until that is dropped.
    pub fn await_umount(self) -> (parts: (tokio::sync::oneshot::Receiver<()>, Suspended<M, G>))
        ensures
            parts.0 == self.consumer(),
            parts.1.token() == self.token(),
            parts.1.worker() == self.worker(),
    {
        let AsyncBackgroundSession { mountpoint: _, guard, mount, receiver } = self;
        (receiver, Suspended { guard, mount })
    }
}

} // verus!
