//! What an actor is, and how one is started.

use crate::ambient::Ambient;
use crate::channel::Channel;
use crate::channel::ChannelView;
use std::sync::mpsc::Receiver;
use std::sync::mpsc::Sender;
use vstd::prelude::*;

verus! {

/// An actor: a value that runs on a thread of its own, receives values of
/// type `Receives` and answers with values of type `Sends`.
pub trait Actor<Sends, Receives>: Send {
    /// Runs the actor with the two ends that connect it to its callers.
    ///
    /// The call is expected to block: it takes values from `receiver` until
    /// the queue is closed. When and what the actor answers on `sender` is its
    /// own business; a caller waits for exactly one answer to each value that
    /// it sent.
    fn start(self, sender: Sender<Sends>, receiver: Receiver<Receives>);
}

/// A registered actor that has not been started yet, with all that its thread
/// needs: the context to install, and the actor's side of the channel.
#[verifier::reject_recursive_types(S)]
#[verifier::reject_recursive_types(R)]
pub struct Launch<A, S, R> {
    ambient: Ambient,
    actor: A,
    side: Channel<S, R>,
}

impl<A: Actor<S, R>, S, R> Launch<A, S, R> {
    /// The context that the actor's thread starts with.
    pub closed spec fn ambient(self) -> Ambient {
        self.ambient
    }

    /// The actor that is to run.
    pub closed spec fn actor(self) -> A {
        self.actor
    }

    /// The actor's side of its channel.
    pub closed spec fn side(self) -> ChannelView {
        self.side@
    }

    /// Puts together what `register` hands out.
    pub(crate) fn new(ambient: Ambient, actor: A, side: Channel<S, R>) -> (launch: Self)
        ensures
            launch.ambient() == ambient,
            launch.actor() == actor,
            launch.side() == side@,
    {
        Launch { ambient, actor, side }
    }

    /// The context for the actor's thread to install before it runs the
    /// actor: that of the distributor with which the actor was registered.
    pub fn context(&self) -> (ambient: Ambient)
        ensures
            ambient@ == self.ambient()@,
    {
        self.ambient.inherit()
    }

    /// Runs the actor on the calling thread, with the sending and the
    /// receiving end of its side of the channel. Returns when the actor does.
    pub fn run(self) {
        let (sender, receiver) = self.side.into_parts();
        self.actor.start(sender, receiver)
    }
}

} // verus!
