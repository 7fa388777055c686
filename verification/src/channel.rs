//! A duplex channel: one queue in each direction between a caller and an actor.

use crate::failure::Failure;
use crate::queue::open_queue;
use crate::queue::Inlet;
use crate::queue::Outlet;
use std::sync::mpsc::Receiver;
use std::sync::mpsc::Sender;
use vstd::prelude::*;

verus! {

/// What one side of a channel looks like from outside: the queue it writes
/// to, the queue it reads from, and how many values it has written and read.
pub struct ChannelView {
    pub outbound: nat,
    pub inbound: nat,
    pub sent: nat,
    pub received: nat,
}

/// The view of a side that was just made on the queues `outbound` and
/// `inbound`: nothing has passed through it yet.
pub open spec fn untouched(outbound: nat, inbound: nat) -> ChannelView {
    ChannelView { outbound, inbound, sent: 0, received: 0 }
}

/// Every value that the side has written has been answered: as many values
/// were read as were written.
pub open spec fn balanced(side: ChannelView) -> bool {
    side.sent == side.received
}

/// How one attempt at a round trip changes a side. The queues stay what they
/// were. An answered attempt wrote one value and then read one. An unanswered
/// attempt read nothing, and wrote at most one value.
pub open spec fn round_trip(before: ChannelView, after: ChannelView, answered: bool) -> bool {
    &&& after.outbound == before.outbound
    &&& after.inbound == before.inbound
    &&& answered ==> after.sent == before.sent + 1 && after.received == before.received + 1
    &&& !answered ==> after.received == before.received && (after.sent == before.sent
        || after.sent == before.sent + 1)
}

/// One side of a duplex channel: it sends values of type `S` on one queue and
/// receives values of type `R` from another.
#[verifier::reject_recursive_types(S)]
#[verifier::reject_recursive_types(R)]
pub struct Channel<S, R> {
    sender: Outlet<S>,
    receiver: Inlet<R>,
}

impl<S, R> View for Channel<S, R> {
    type V = ChannelView;

    closed spec fn view(&self) -> ChannelView {
        ChannelView {
            outbound: self.sender.queue(),
            inbound: self.receiver.queue(),
            sent: self.sender.sent(),
            received: self.receiver.taken(),
        }
    }
}

impl<S, R> Channel<S, R> {
    /// The bare sending end of the side: the end that writes to its outbound
    /// queue.
    pub closed spec fn sender(self) -> Sender<S> {
        self.sender.end()
    }

    /// The bare receiving end of the side: the end that reads from its
    /// inbound queue.
    pub closed spec fn receiver(self) -> Receiver<R> {
        self.receiver.end()
    }

    /// Makes a channel on two new queues, known as `there` and `back`, and
    /// returns its two sides: first the side that writes to `there`, then the
    /// side that writes to `back`.
    pub(crate) fn duplex(there: Ghost<nat>, back: Ghost<nat>) -> (sides: (
        Channel<S, R>,
        Channel<R, S>,
    ))
        ensures
            sides.0@ == untouched(there@, back@),
            sides.1@ == untouched(back@, there@),
    {
        let (there_tx, there_rx) = open_queue::<S>(there);
        let (back_tx, back_rx) = open_queue::<R>(back);
        (
            Channel { sender: there_tx, receiver: back_rx },
            Channel { sender: back_tx, receiver: there_rx },
        )
    }

    /// One round trip: writes `message` to the outbound queue, then waits for
    /// exactly one value on the inbound queue and returns it.
    ///
    /// Fails with `Disconnected`, and with nothing else, when the other side
    /// is gone: either `message` could not be written, or it was written and
    /// no answer can come any more. While the other side lives and does not
    /// answer, the call does not return.
    pub fn exchange(&mut self, message: S) -> (out: Result<R, Failure>)
        ensures
            round_trip(old(self)@, final(self)@, out is Ok),
            out is Err ==> out == Err::<R, Failure>(Failure::Disconnected),
    {
        match self.sender.push(message) {
            Err(_) => Err(Failure::Disconnected),
            Ok(()) => match self.receiver.pull() {
                Some(reply) => Ok(reply),
                None => Err(Failure::Disconnected),
            },
        }
    }

    /// Takes the side apart into its bare sending and receiving ends: what
    /// is sent on the first goes to the outbound queue of the side, and the
    /// second yields what arrives on its inbound queue.
    pub fn into_parts(self) -> (parts: (Sender<S>, Receiver<R>))
        ensures
            parts.0 == self.sender(),
            parts.1 == self.receiver(),
    {
        (self.sender.into_sender(), self.receiver.into_receiver())
    }
}

} // verus!
