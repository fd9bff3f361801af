use vstd::prelude::*;

use crate::config::ThreadPoolConfig;
use crate::disconnected_on_err;
use crate::ThreadPoolDisconnected;

verus! {

/// `flume::Sender`, carried through as an opaque value.
#[verifier::external_type_specification]
#[verifier::external_body]
#[verifier::reject_recursive_types(T)]
pub struct ExFlumeSender<T>(flume::Sender<T>);

/// `flume::Receiver`, carried through as an opaque value.
#[verifier::external_type_specification]
#[verifier::external_body]
#[verifier::reject_recursive_types(T)]
pub struct ExFlumeReceiver<T>(flume::Receiver<T>);

/// `flume::RecvError`, the failure of a receive on a closed and empty channel.
#[verifier::external_type_specification]
#[verifier::external_body]
pub struct ExFlumeRecvError(flume::RecvError);

/// Waits for the next value of the channel of `receiver`.
///
/// Calls `flume::Receiver::recv`, which blocks until a value arrives and fails only
/// once every sender of the channel is dropped and no value is left. Which of the two
/// happens depends on other threads, and no clause states it.
#[verifier::external_body]
fn receive<T>(receiver: &flume::Receiver<T>) -> (result: Result<T, flume::RecvError>) {
    receiver.recv()
}

/// A new channel that holds at most `capacity` values.
///
/// Calls `flume::bounded`; nothing is claimed of the channel.
#[verifier::external_body]
fn bounded_channel<T>(capacity: usize) -> (flume::Sender<T>, flume::Receiver<T>) {
    flume::bounded(capacity)
}

/// A new channel without a bound on what it holds.
///
/// Calls `flume::unbounded`; nothing is claimed of the channel.
#[verifier::external_body]
fn unbounded_channel<T>() -> (flume::Sender<T>, flume::Receiver<T>) {
    flume::unbounded()
}

/// The job queue of a pool with `config`: bounded by its queue size where it has one,
/// without a bound where it has none.
pub fn job_queue<T>(config: &ThreadPoolConfig) -> (flume::Sender<T>, flume::Receiver<T>) {
    match config.queue_capacity() {
        Some(queue_size) => bounded_channel(queue_size),
        None => unbounded_channel(),
    }
}

/// Join handle
///
/// It is meant to hold both ends of one channel, the sender kept so that the channel
/// stays open while the handle lives: `join` then waits for the job's value for as
/// long as it takes. That the two ends belong to one channel is not checked here;
/// no clause can speak of a channel's identity.
#[derive(Debug)]
#[verifier::reject_recursive_types(R)]
pub struct JoinHandle<R>(flume::Sender<R>, flume::Receiver<R>);

impl<R> JoinHandle<R> {
    /// The sending end that the handle keeps.
    pub closed spec fn sender(&self) -> flume::Sender<R> {
        self.0
    }

    /// The receiving end that the job's value comes on.
    pub closed spec fn receiver(&self) -> flume::Receiver<R> {
        self.1
    }

    /// The handle of the job whose value comes on `receiver`; `sender` should be a sender
    /// of the same channel, kept so that the channel stays open.
    pub fn from_channel(sender: flume::Sender<R>, receiver: flume::Receiver<R>) -> (handle: Self)
        ensures
            handle.sender() == sender,
            handle.receiver() == receiver,
    {
        JoinHandle(sender, receiver)
    }

    /// Block the current thread until job finished
    ///
    /// The value that comes, and whether the channel was closed instead, depend on other
    /// threads; no clause states them.
    pub fn join(self) -> Result<R, ThreadPoolDisconnected> {
        disconnected_on_err(receive(&self.1))
    }
}

} // verus!
