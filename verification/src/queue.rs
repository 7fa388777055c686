//! The two ends of a one-directional, unbounded, first-in first-out queue.
//!
//! The queue itself is `std::sync::mpsc`. An [`Outlet`] is its sending end and
//! an [`Inlet`] its receiving end. Each end carries, as ghost state, the
//! identity of the queue it belongs to and the number of values that have
//! passed through it, so that contracts can say which queue was used and how
//! often.

use std::sync::mpsc::Receiver;
use std::sync::mpsc::Sender;
use vstd::prelude::*;

verus! {

#[verifier::external_type_specification]
#[verifier::external_body]
#[verifier::reject_recursive_types(T)]
pub struct ExSender<T>(Sender<T>);

#[verifier::external_type_specification]
#[verifier::external_body]
#[verifier::reject_recursive_types(T)]
pub struct ExReceiver<T>(Receiver<T>);

/// `std::sync::mpsc::channel`: makes a new queue and returns its two ends.
/// Nothing is claimed of them.
#[verifier::external_body]
fn raw_queue<T>() -> (ends: (Sender<T>, Receiver<T>)) {
    std::sync::mpsc::channel()
}

/// `Sender::send`: tries to append `value` to the queue and never blocks.
/// Trusted: when the receiving end is gone, the value that comes back is the
/// one that was offered.
#[verifier::external_body]
fn raw_send<T>(tx: &Sender<T>, value: T) -> (back: Option<T>)
    ensures
        back matches Some(v) ==> v == value,
{
    match tx.send(value) {
        Ok(()) => None,
        Err(refused) => Some(refused.0),
    }
}

/// `Receiver::recv`: waits for the next value of the queue; `None` once every
/// sending end is gone and the queue is empty. Nothing is claimed of the
/// value. While the queue is empty and a sending end lives, the call does not
/// return.
#[verifier::external_body]
fn raw_recv<T>(rx: &Receiver<T>) -> (got: Option<T>) {
    match rx.recv() {
        Ok(value) => Some(value),
        Err(_) => None,
    }
}

/// The sending end of a queue.
#[verifier::reject_recursive_types(T)]
pub(crate) struct Outlet<T> {
    tx: Sender<T>,
    queue: Ghost<nat>,
    sent: Ghost<nat>,
}

/// The receiving end of a queue.
#[verifier::reject_recursive_types(T)]
pub(crate) struct Inlet<T> {
    rx: Receiver<T>,
    queue: Ghost<nat>,
    taken: Ghost<nat>,
}

impl<T> Outlet<T> {
    /// The identity of the queue that this end feeds.
    pub(crate) closed spec fn queue(self) -> nat {
        self.queue@
    }

    /// How many values have been appended through this end.
    pub(crate) closed spec fn sent(self) -> nat {
        self.sent@
    }

    /// The bare sending end that this end holds.
    pub(crate) closed spec fn end(self) -> Sender<T> {
        self.tx
    }

    /// Appends `value` to the queue. When the receiving end is gone the value
    /// is handed back and nothing was appended.
    pub(crate) fn push(&mut self, value: T) -> (out: Result<(), T>)
        ensures
            final(self).queue() == old(self).queue(),
            out is Ok ==> final(self).sent() == old(self).sent() + 1,
            out matches Err(back) ==> back == value && final(self).sent() == old(self).sent(),
    {
        match raw_send(&self.tx, value) {
            None => {
                proof {
                    self.sent@ = self.sent@ + 1;
                }
                Ok(())
            },
            Some(back) => Err(back),
        }
    }

    /// Gives up the bookkeeping and returns the bare sending end.
    pub(crate) fn into_sender(self) -> (tx: Sender<T>)
        ensures
            tx == self.end(),
    {
        self.tx
    }
}

impl<T> Inlet<T> {
    /// The identity of the queue that this end drains.
    pub(crate) closed spec fn queue(self) -> nat {
        self.queue@
    }

    /// How many values have been removed through this end.
    pub(crate) closed spec fn taken(self) -> nat {
        self.taken@
    }

    /// The bare receiving end that this end holds.
    pub(crate) closed spec fn end(self) -> Receiver<T> {
        self.rx
    }

    /// Waits for the next value of the queue and removes it. `None` when the
    /// sending end is gone and the queue is empty.
    pub(crate) fn pull(&mut self) -> (out: Option<T>)
        ensures
            final(self).queue() == old(self).queue(),
            out is Some ==> final(self).taken() == old(self).taken() + 1,
            out is None ==> final(self).taken() == old(self).taken(),
    {
        let got = raw_recv(&self.rx);
        if got.is_some() {
            proof {
                self.taken@ = self.taken@ + 1;
            }
        }
        got
    }

    /// Gives up the bookkeeping and returns the bare receiving end.
    pub(crate) fn into_receiver(self) -> (rx: Receiver<T>)
        ensures
            rx == self.end(),
    {
        self.rx
    }
}

/// Makes a new, empty queue known as `label` and returns its two ends.
pub(crate) fn open_queue<T>(label: Ghost<nat>) -> (ends: (Outlet<T>, Inlet<T>))
    ensures
        ends.0.queue() == label@,
        ends.1.queue() == label@,
        ends.0.sent() == 0,
        ends.1.taken() == 0,
{
    let (tx, rx) = raw_queue();
    (Outlet { tx, queue: label, sent: Ghost(0) }, Inlet { rx, queue: label, taken: Ghost(0) })
}

} // verus!
