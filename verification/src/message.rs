//! Messages: the envelope around a value, and the round trip to an actor.

use crate::actor::Actor;
use crate::ambient::Ambient;
use crate::failure::Failure;
use crate::registry::ChannelKey;
use crate::shared::acquire;
use crate::shared::guarded;
use vstd::prelude::*;

verus! {

/// A message which can be sent to an actor from any thread whose context
/// refers to a distributor.
pub struct Message<Data: Send> {
    data: Data,
}

impl<R: Send + 'static> Message<R> {
    /// The value that the message carries.
    pub closed spec fn payload(self) -> R {
        self.data
    }

    /// Wraps `data` for delivery.
    pub fn new(data: R) -> (message: Message<R>)
        ensures
            message.payload() == data,
    {
        Message { data }
    }

    /// Sends this message to the actor of type `A` and waits for its reply.
    ///
    /// The distributor is that of `ambient`, the context of the calling
    /// thread. Its lock is held from the lookup of the actor until the reply
    /// has arrived, so no two messages are ever under way at once.
    ///
    /// Fails with `MissingContext` exactly when `ambient` refers to no
    /// distributor; with `MissingActor` when no actor of type `A` is
    /// registered at the moment the lock is taken; with `Disconnected` when
    /// the actor is gone. While the actor lives and does not answer, the call
    /// does not return.
    pub fn send<A: Actor<S, R> + 'static, S: Send + 'static>(self, ambient: &Ambient) -> (out:
        Result<S, Failure>)
        ensures
            ambient@ is None <==> out == Err::<S, Failure>(Failure::MissingContext),
    {
        match ambient.handle() {
            Err(failure) => Err(failure),
            Ok(handle) => {
                let key = ChannelKey::<S, R, A>::new();
                let mut guard = acquire(&*handle);
                let distributor = guarded(&mut guard);
                distributor.direct(&key, self.data)
            },
        }
    }
}

} // verus!
