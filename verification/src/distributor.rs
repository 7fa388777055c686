//! The distributor: the registry of the channels to all registered actors.

use crate::channel::round_trip;
use crate::channel::untouched;
use crate::channel::Channel;
use crate::channel::ChannelView;
use crate::failure::Failure;
use crate::registry::no_slots;
use crate::registry::registry_find_mut;
use crate::registry::registry_insert;
use crate::registry::registry_new;
use crate::registry::registry_slots;
use crate::registry::ChannelKey;
use crate::registry::TypeRegistry;
use std::any::TypeId;
use vstd::prelude::*;

verus! {

/// No slot of `slots` writes to or reads from `queue`.
pub open spec fn unused(slots: Map<TypeId, ChannelView>, queue: nat) -> bool {
    forall|k: TypeId|
        slots.contains_key(k) ==> (#[trigger] slots[k]).outbound != queue && slots[k].inbound
            != queue
}

/// Every slot has queues of its own: no slot reads what it writes, and no
/// queue belongs to two slots.
pub open spec fn separate(slots: Map<TypeId, ChannelView>) -> bool {
    &&& forall|k: TypeId|
        slots.contains_key(k) ==> (#[trigger] slots[k]).outbound != slots[k].inbound
    &&& forall|j: TypeId, k: TypeId|
        slots.contains_key(j) && slots.contains_key(k) && j != k ==> {
            &&& (#[trigger] slots[j]).outbound != (#[trigger] slots[k]).outbound
            &&& slots[j].outbound != slots[k].inbound
            &&& slots[j].inbound != slots[k].outbound
            &&& slots[j].inbound != slots[k].inbound
        }
}

/// Every queue of `slots` was made before `issued` queues had been made.
pub open spec fn issued_before(slots: Map<TypeId, ChannelView>, issued: nat) -> bool {
    forall|k: TypeId|
        slots.contains_key(k) ==> (#[trigger] slots[k]).outbound < issued && slots[k].inbound
            < issued
}

/// The registry after a new channel, made on the queues `there` (toward the
/// actor) and `back` (toward the callers), was stored in the slot `slot`.
/// Whatever the slot held is replaced; every other slot stays as it was.
pub open spec fn connected(
    before: Map<TypeId, ChannelView>,
    slot: TypeId,
    there: nat,
    back: nat,
) -> Map<TypeId, ChannelView> {
    before.insert(slot, untouched(there, back))
}

/// What a dispatch to the slot `slot` does to the registry. Where the slot is
/// empty nothing changes. Where it is occupied, its channel goes through one
/// attempt at a round trip, answered or not, and every other slot stays as it
/// was.
pub open spec fn dispatched(
    before: Map<TypeId, ChannelView>,
    after: Map<TypeId, ChannelView>,
    slot: TypeId,
    answered: bool,
) -> bool {
    if before.contains_key(slot) {
        &&& after.contains_key(slot)
        &&& round_trip(before[slot], after[slot], answered)
        &&& after == before.insert(slot, after[slot])
    } else {
        !answered && after == before
    }
}

/// The caller's sides of the channels to all registered actors, one for each
/// type key.
pub struct Distributor {
    channels: TypeRegistry,
    issued: Ghost<nat>,
}

impl View for Distributor {
    type V = Map<TypeId, ChannelView>;

    closed spec fn view(&self) -> Map<TypeId, ChannelView> {
        registry_slots(self.channels)
    }
}

impl Distributor {
    /// How many queues the distributor has made so far.
    pub closed spec fn issued(self) -> nat {
        self.issued@
    }

    /// The invariant of a distributor: every registered channel has queues of
    /// its own, and all of them are among the queues made so far.
    pub open spec fn wf(self) -> bool {
        separate(self@) && issued_before(self@, self.issued())
    }

    /// A distributor with no actor registered.
    pub fn empty() -> (distributor: Distributor)
        ensures
            distributor@ == no_slots(),
            distributor.wf(),
    {
        Distributor { channels: registry_new(), issued: Ghost(0) }
    }

    /// Makes a new channel and stores its caller's side in the slot of `key`,
    /// in place of whatever the slot held. Returns the actor's side.
    ///
    /// A channel that the slot held before is dropped; no slot leads to it any
    /// more.
    pub fn connect<S: Send + 'static, R: Send + 'static, A: 'static>(
        &mut self,
        key: &ChannelKey<S, R, A>,
    ) -> (actor_side: Channel<S, R>)
        ensures
            actor_side@ == untouched(actor_side@.outbound, actor_side@.inbound),
            actor_side@.outbound != actor_side@.inbound,
            final(self)@ == connected(
                old(self)@,
                key.id(),
                actor_side@.inbound,
                actor_side@.outbound,
            ),
            old(self).wf() ==> final(self).wf() && unused(old(self)@, actor_side@.inbound)
                && unused(old(self)@, actor_side@.outbound),
    {
        let ghost there = self.issued@;
        let ghost back = there + 1;
        let (caller_side, actor_side) = Channel::<R, S>::duplex(Ghost(there), Ghost(back));
        let _ = registry_insert(&mut self.channels, key, caller_side);
        proof {
            self.issued@ = there + 2;
        }
        actor_side
    }

    /// Sends `message` to the actor registered under `key` and waits for its
    /// reply.
    ///
    /// Fails with `MissingActor` exactly when the slot of `key` is empty; then
    /// nothing was sent anywhere. Otherwise the channel in that slot, and no
    /// other, goes through one round trip: the reply is what the actor
    /// answered, and the failure is `Disconnected` when the actor is gone.
    /// While the actor lives and does not answer, the call does not return.
    pub fn direct<A: 'static, S: Send + 'static, R: Send + 'static>(
        &mut self,
        key: &ChannelKey<S, R, A>,
        message: R,
    ) -> (out: Result<S, Failure>)
        ensures
            dispatched(old(self)@, final(self)@, key.id(), out is Ok),
            !old(self)@.contains_key(key.id()) <==> out == Err::<S, Failure>(
                Failure::MissingActor,
            ),
            out matches Err(failure) ==> failure == Failure::MissingActor || failure
                == Failure::Disconnected,
            old(self).wf() ==> final(self).wf(),
    {
        match registry_find_mut(&mut self.channels, key) {
            None => Err(Failure::MissingActor),
            Some(channel) => channel.exchange(message),
        }
    }
}

} // verus!
