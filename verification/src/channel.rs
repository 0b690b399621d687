//! The work channel: an unbounded FIFO queue from the pool to its workers.
//!
//! The send side is a plain `mpsc::Sender`; the receive side is shared by
//! every worker under mutual exclusion, so exactly one worker dequeues at
//! a time. Both sides are trusted items: Verus believes their contracts
//! and does not look at the channel itself. Nothing is promised about
//! which message a receive call yields — what a worker does with a
//! message is verified separately, for every message it could get.

use vstd::prelude::*;

use crate::Message;

verus! {

#[verifier::external_type_specification]
#[verifier::external_body]
#[verifier::reject_recursive_types(T)]
pub struct ExSender<T>(std::sync::mpsc::Sender<T>);

/// The receive side of the work channel, shared by all workers of one
/// pool under mutual exclusion. Opaque to Verus; the wrappers below are
/// its only operations.
#[verifier::external_body]
#[verifier::reject_recursive_types(J)]
pub struct SharedReceiver<J> {
    inner: std::sync::Arc<std::sync::Mutex<std::sync::mpsc::Receiver<Message<J>>>>,
}

/// Relies on `std::sync::mpsc::channel`: the returned sender and receiver
/// are the two ends of one initially empty FIFO queue.
#[verifier::external_body]
pub fn make_channel<J>() -> (r: (std::sync::mpsc::Sender<Message<J>>, SharedReceiver<J>)) {
    let (sender, receiver) = std::sync::mpsc::channel();
    let shared = SharedReceiver { inner: std::sync::Arc::new(std::sync::Mutex::new(receiver)) };
    (sender, shared)
}

/// Relies on `std::sync::mpsc::Sender::send`: the message is queued in
/// arrival order, and `send` fails exactly when the receive side has been
/// dropped. The result reports whether the channel accepted the message.
#[verifier::external_body]
pub fn send_message<J>(sender: &std::sync::mpsc::Sender<Message<J>>, msg: Message<J>) -> (accepted:
    bool) {
    match sender.send(msg) {
        Ok(()) => true,
        Err(_) => false,
    }
}

impl<J> SharedReceiver<J> {
    /// Relies on `std::sync::Arc::clone`: another handle to the same
    /// shared receive side, for one more worker.
    #[verifier::external_body]
    pub fn share(&self) -> (r: SharedReceiver<J>) {
        SharedReceiver { inner: std::sync::Arc::clone(&self.inner) }
    }

    /// Relies on `std::sync::Mutex::lock` and `std::sync::mpsc::Receiver::recv`:
    /// blocks until this worker holds the receiver alone and one message
    /// arrives, then hands that message out; the message belongs to this
    /// caller only. Yields `None` when every sender is gone and the queue
    /// is empty — the expected shutdown signal — or when the lock was
    /// poisoned by a worker that panicked mid-receive.
    #[verifier::external_body]
    pub fn recv_message(&self) -> (msg: Option<Message<J>>) {
        match self.inner.lock() {
            Ok(guard) => match guard.recv() {
                Ok(m) => Some(m),
                Err(_) => None,
            },
            Err(_) => None,
        }
    }
}

} // verus!
