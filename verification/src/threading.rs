//! Progress-thread callbacks: helpers for hopping off the PMIx progress
//! thread.
//!
//! OpenPMIx delivers `_nb` completions and events on the **progress
//! thread**, never on the thread that issued the call. A callback must
//! therefore never block: it hands its payload to an application thread
//! through a [`CallbackChannel`] and returns.

use vstd::prelude::*;
use std::sync::mpsc::{Iter, Receiver, RecvError, RecvTimeoutError, Sender, TryRecvError};
use std::time::Duration;

verus! {

#[verifier::external_type_specification]
#[verifier::external_body]
#[verifier::reject_recursive_types(T)]
pub struct ExSender<T>(Sender<T>);

#[verifier::external_type_specification]
#[verifier::external_body]
#[verifier::reject_recursive_types(T)]
pub struct ExReceiver<T>(Receiver<T>);

#[verifier::external_type_specification]
#[verifier::external_body]
#[verifier::reject_recursive_types(T)]
pub struct ExIter<'a, T: 'a>(Iter<'a, T>);

#[verifier::external_type_specification]
#[verifier::external_body]
pub struct ExRecvError(RecvError);

/// `RecvTimeoutError`, with its two field-less variants (`Timeout`,
/// `Disconnected`) visible to the contracts.
#[verifier::external_type_specification]
pub struct ExRecvTimeoutError(RecvTimeoutError);

/// `TryRecvError`, with its two field-less variants (`Empty`,
/// `Disconnected`) visible to the contracts.
#[verifier::external_type_specification]
pub struct ExTryRecvError(TryRecvError);

/// `std::sync::mpsc::channel`: a new unbounded channel. Nothing is claimed
/// of the pair.
#[verifier::external_body]
fn mpsc_channel<T>() -> (Sender<T>, Receiver<T>) {
    std::sync::mpsc::channel()
}

/// `Sender::clone` on the channel's own sender: another sender into the
/// same channel. Nothing is claimed of it.
#[verifier::external_body]
fn channel_sender<T>(ch: &CallbackChannel<T>) -> Sender<T> {
    ch.tx.clone()
}

/// `Receiver::recv` on the channel's receiver: blocks for the next message.
/// `recv` fails only once every sender of the channel has been dropped, and
/// the channel keeps a sender of its own for as long as it lives, so the
/// result is `Ok`. Which message comes back depends on the other threads and
/// is not claimed.
#[verifier::external_body]
fn channel_recv<T>(ch: &CallbackChannel<T>) -> (r: Result<T, RecvError>)
    ensures
        r is Ok,
{
    ch.rx.recv()
}

/// `Receiver::recv_timeout` on the channel's receiver: blocks up to
/// `timeout` for the next message. It reports `Disconnected` only once every
/// sender of the channel has been dropped, and the channel keeps a sender of
/// its own for as long as it lives, so an error is `Timeout`. Which message
/// comes back, and whether one comes in time, depends on the other threads
/// and is not claimed.
#[verifier::external_body]
fn channel_recv_timeout<T>(ch: &CallbackChannel<T>, timeout: Duration) -> (r: Result<T, RecvTimeoutError>)
    ensures
        r matches Err(e) ==> e == RecvTimeoutError::Timeout,
{
    ch.rx.recv_timeout(timeout)
}

/// `Receiver::try_recv` on the channel's receiver: the next message if one
/// is ready. It reports `Disconnected` only once every sender of the channel
/// has been dropped, and the channel keeps a sender of its own for as long
/// as it lives, so an error is `Empty`. Whether a message is ready depends
/// on the other threads and is not claimed.
#[verifier::external_body]
fn channel_try_recv<T>(ch: &CallbackChannel<T>) -> (r: Result<T, TryRecvError>)
    ensures
        r matches Err(e) ==> e == TryRecvError::Empty,
{
    ch.rx.try_recv()
}

/// `Receiver::iter` on the channel's receiver: a blocking iterator over the
/// incoming messages. Nothing is claimed of it.
#[verifier::external_body]
fn channel_iter<'a, T>(ch: &'a CallbackChannel<T>) -> Iter<'a, T> {
    ch.rx.iter()
}

/// Zero-sized marker for code that runs on the PMIx **progress thread**.
///
/// `ProgressContext` carries no data and has no runtime effect. A callback
/// can take one so that the rule "never block here" stays next to the code
/// that must respect it: no blocking PMIx call, no waiting on another
/// thread, no registry lock held across user code. Hop off first with a
/// [`CallbackChannel`].
#[derive(Debug, Clone, Copy, Default, PartialEq, Eq, Hash, Structural)]
pub struct ProgressContext;

/// Channel pair for hopping callback payloads off the progress thread.
///
/// The **application thread** creates the channel and keeps the receiver;
/// the **callback** gets a cloned [`Sender`] via
/// [`sender`](CallbackChannel::sender) and pushes Rust-owned payloads into
/// it before returning. The application thread then does the blocking work.
#[verifier::reject_recursive_types(T)]
pub struct CallbackChannel<T> {
    tx: Sender<T>,
    rx: Receiver<T>,
}

impl<T> CallbackChannel<T> {
    /// The receiving end that the channel holds.
    pub closed spec fn receiver(&self) -> Receiver<T> {
        self.rx
    }

    /// Create a new hop channel. Keep it on the application thread and
    /// distribute [`sender`](CallbackChannel::sender) clones to callbacks.
    pub fn new() -> Self {
        let (tx, rx) = mpsc_channel();
        CallbackChannel { tx, rx }
    }

    /// A clone-able sender to move into a callback. `send` on an unbounded
    /// channel never blocks the handler.
    pub fn sender(&self) -> Sender<T> {
        channel_sender(self)
    }

    /// Block the application thread until a payload arrives. The channel
    /// holds a sender of its own, so this never reports a disconnected
    /// channel.
    pub fn recv(&self) -> (r: Result<T, RecvError>)
        ensures
            r is Ok,
    {
        channel_recv(self)
    }

    /// Block up to `timeout` for a payload. The channel holds a sender of
    /// its own, so the only error is `Timeout`.
    pub fn recv_timeout(&self, timeout: Duration) -> (r: Result<T, RecvTimeoutError>)
        ensures
            r matches Err(e) ==> e == RecvTimeoutError::Timeout,
    {
        channel_recv_timeout(self, timeout)
    }

    /// Non-blocking poll for a payload: `TryRecvError::Empty` when no
    /// message is ready yet. (`TryRecvError::Disconnected` comes only once
    /// every sender has been dropped, which cannot happen while the channel
    /// keeps its own.)
    pub fn try_recv(&self) -> (r: Result<T, TryRecvError>)
        ensures
            r matches Err(e) ==> e == TryRecvError::Empty,
    {
        channel_try_recv(self)
    }

    /// Iterate over incoming payloads (blocks the application thread).
    pub fn iter(&self) -> Iter<'_, T> {
        channel_iter(self)
    }

    /// Consume the channel and take ownership of the receiver (for moving
    /// it into a dedicated worker thread). The channel's own sender is
    /// dropped, so the receiver disconnects once every handed-out sender is
    /// gone.
    pub fn into_receiver(self) -> (r: Receiver<T>)
        ensures
            r == self.receiver(),
    {
        self.rx
    }
}

impl<T> Default for CallbackChannel<T> {
    fn default() -> Self {
        Self::new()
    }
}

} // verus!
