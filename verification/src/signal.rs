//! The one-shot completion signal between the worker and a waiter.
//!
//! The signal is a `tokio::sync::oneshot` channel that carries the unit value.
//! Verus sees neither end from the inside: the two functions that touch the
//! channel are trusted, and promise nothing of what they return.
use vstd::prelude::*;

verus! {

/// The producing end of `tokio::sync::oneshot`, carried through as an opaque
/// value.
#[verifier::external_type_specification]
#[verifier::external_body]
#[verifier::reject_recursive_types(T)]
pub struct ExSender<T>(tokio::sync::oneshot::Sender<T>);

/// The consuming end of `tokio::sync::oneshot`, carried through as an opaque
/// value.
#[verifier::external_type_specification]
#[verifier::external_body]
#[verifier::reject_recursive_types(T)]
pub struct ExReceiver<T>(tokio::sync::oneshot::Receiver<T>);

/// What a wait on the consuming end fails with when the producing end is gone
/// without having sent. No function here takes or returns it: it is declared
/// because the consuming end is a future with this error in its output.
#[verifier::external_type_specification]
#[verifier::external_body]
pub struct ExRecvError(tokio::sync::oneshot::error::RecvError);

/// Calls `tokio::sync::oneshot::channel` for a channel of the unit value and
/// hands back its two ends. Nothing is claimed of them.
#[verifier::external_body]
pub(crate) fn completion_channel() -> (ends: (
    tokio::sync::oneshot::Sender<()>,
    tokio::sync::oneshot::Receiver<()>,
)) {
    tokio::sync::oneshot::channel()
}

/// Calls `tokio::sync::oneshot::Sender::send` with the unit value and tells
/// whether the channel took it. The call never waits. Nothing is claimed of
/// the answer: it is `false` when the consuming end was closed or discarded
/// first, which another thread decides.
#[verifier::external_body]
pub(crate) fn publish(producer: tokio::sync::oneshot::Sender<()>) -> (delivered: bool) {
    producer.send(()).is_ok()
}

} // verus!
