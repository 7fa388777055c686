//! Registration of actors with a shared distributor.

use crate::actor::Actor;
use crate::actor::Launch;
use crate::ambient::Ambient;
use crate::channel::untouched;
use crate::distributor::Distributor;
use crate::registry::ChannelKey;
use crate::shared::acquire;
use crate::shared::guarded;
use std::sync::Arc;
use std::sync::Mutex;
use vstd::prelude::*;

verus! {

/// Adds the `register` method to a shared distributor.
pub trait Register {
    /// Registers `actor` with this distributor: makes a channel to it and
    /// stores the caller's side under the actor's type key, in place of any
    /// earlier one. Returns what the actor's thread is to be started with.
    fn register<A, S, R>(&self, actor: A) -> (launch: Launch<A, S, R>) where
        A: Actor<S, R> + 'static,
        S: Send + 'static,
        R: Send + 'static,
    ;
}

impl Register for Arc<Mutex<Distributor>> {
    /// The channel is made and stored while the lock is held. The thread that
    /// is to run the actor gets this distributor as its context, and gets the
    /// actor's side of a channel that nothing has passed through yet.
    fn register<A, S, R>(&self, actor: A) -> (launch: Launch<A, S, R>) where
        A: Actor<S, R> + 'static,
        S: Send + 'static,
        R: Send + 'static,

        ensures
            launch.ambient()@ == Some(*self),
            launch.actor() == actor,
            launch.side() == untouched(launch.side().outbound, launch.side().inbound),
            launch.side().outbound != launch.side().inbound,
    {
        let key = ChannelKey::<S, R, A>::new();
        let mut guard = acquire(&**self);
        let distributor = guarded(&mut guard);
        let side = distributor.connect(&key);
        Launch::new(Ambient::bound_to(self), actor, side)
    }
}

} // verus!
