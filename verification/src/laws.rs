//! What holds of every distributor, whatever is registered and dispatched.

use crate::channel::balanced;
use crate::channel::round_trip;
use crate::channel::untouched;
use crate::channel::ChannelView;
use crate::distributor::connected;
use crate::distributor::dispatched;
use crate::distributor::separate;
use crate::distributor::unused;
use std::any::TypeId;
use vstd::prelude::*;

verus! {

/// Replies pair with requests by position.
///
/// Take any run of answered round trips on one side of a channel, one after
/// the other as the lock of the distributor enforces, that starts from a
/// balanced side. Then the side is balanced before each of them: the request
/// that a round trip writes and the reply that it reads have the same
/// position in their queues. No reply is lost, taken twice or taken by
/// another round trip.
pub proof fn lemma_replies_pair_with_requests(history: Seq<ChannelView>, i: int)
    requires
        0 <= i < history.len(),
        balanced(history[0]),
        forall|j: int|
            0 <= j < history.len() - 1 ==> round_trip(#[trigger] history[j], history[j + 1], true),
    ensures
        balanced(history[i]),
        history[i].sent == history[0].sent + i,
        history[i].received == history[0].received + i,
        history[i].outbound == history[0].outbound,
        history[i].inbound == history[0].inbound,
    decreases i,
{
    if i > 0 {
        lemma_replies_pair_with_requests(history, i - 1);
        assert(round_trip(history[i - 1], history[i - 1 + 1], true));
    }
}

/// An unanswered round trip ends the pairing: a side that was balanced is
/// balanced afterwards only if the request was never written.
pub proof fn lemma_unanswered_round_trip(before: ChannelView, after: ChannelView)
    requires
        balanced(before),
        round_trip(before, after, false),
    ensures
        balanced(after) <==> after == before,
{
}

/// A dispatch concerns one slot only.
///
/// Whatever a dispatch to `slot` did, every other slot is occupied exactly if
/// it was before, and holds the channel that it held, with nothing more sent
/// or received on it. A dispatch to an empty slot changes nothing at all.
pub proof fn lemma_dispatch_touches_one_slot(
    before: Map<TypeId, ChannelView>,
    after: Map<TypeId, ChannelView>,
    slot: TypeId,
    answered: bool,
    other: TypeId,
)
    requires
        dispatched(before, after, slot, answered),
        other != slot,
    ensures
        after.contains_key(other) == before.contains_key(other),
        before.contains_key(other) ==> after[other] == before[other],
        after.contains_key(slot) == before.contains_key(slot),
        !before.contains_key(slot) ==> after == before && !answered,
{
}

/// A registration concerns one slot only.
///
/// After a channel was stored in `slot`, that slot holds the new channel, with
/// nothing sent or received yet, and every other slot is as it was.
pub proof fn lemma_registration_touches_one_slot(
    before: Map<TypeId, ChannelView>,
    slot: TypeId,
    there: nat,
    back: nat,
    other: TypeId,
)
    requires
        other != slot,
    ensures
        connected(before, slot, there, back).contains_key(slot),
        connected(before, slot, there, back)[slot] == untouched(there, back),
        connected(before, slot, there, back).contains_key(other) == before.contains_key(other),
        before.contains_key(other) ==> connected(before, slot, there, back)[other]
            == before[other],
{
}

/// Registering again orphans the first channel.
///
/// Let `slot` hold a channel, and let a new channel on the unused queues
/// `there` and `back` be stored in it. Then no slot leads to either queue of
/// the first channel any more, so nothing that is or will be in them can
/// reach a caller; the new channel starts with nothing sent or received; and
/// the slots still have queues of their own.
pub proof fn lemma_registering_again_orphans_the_first(
    before: Map<TypeId, ChannelView>,
    slot: TypeId,
    there: nat,
    back: nat,
)
    requires
        separate(before),
        before.contains_key(slot),
        unused(before, there),
        unused(before, back),
        there != back,
    ensures
        unused(connected(before, slot, there, back), before[slot].outbound),
        unused(connected(before, slot, there, back), before[slot].inbound),
        connected(before, slot, there, back)[slot] == untouched(there, back),
        separate(connected(before, slot, there, back)),
{
    let after = connected(before, slot, there, back);
    assert forall|k: TypeId| after.contains_key(k) implies (#[trigger] after[k]).outbound
        != before[slot].outbound && after[k].inbound != before[slot].outbound && after[k].outbound
        != before[slot].inbound && after[k].inbound != before[slot].inbound by {
        if k != slot {
            assert(before.contains_key(k));
            assert(after[k] == before[k]);
        }
    }
    lemma_registration_keeps_slots_separate(before, slot, there, back);
}

/// Registration keeps the slots apart.
///
/// Where every slot has queues of its own, it still has after a new channel
/// on two unused queues was stored in `slot`, whether `slot` was occupied or
/// not: there is one channel for each type key, and no channel serves two.
pub proof fn lemma_registration_keeps_slots_separate(
    before: Map<TypeId, ChannelView>,
    slot: TypeId,
    there: nat,
    back: nat,
)
    requires
        separate(before),
        unused(before, there),
        unused(before, back),
        there != back,
    ensures
        separate(connected(before, slot, there, back)),
{
    let after = connected(before, slot, there, back);
    assert forall|k: TypeId| after.contains_key(k) implies (#[trigger] after[k]).outbound
        != after[k].inbound by {
        if k != slot {
            assert(after[k] == before[k]);
        }
    }
    assert forall|j: TypeId, k: TypeId|
        after.contains_key(j) && after.contains_key(k) && j != k implies {
        &&& (#[trigger] after[j]).outbound != (#[trigger] after[k]).outbound
        &&& after[j].outbound != after[k].inbound
        &&& after[j].inbound != after[k].outbound
        &&& after[j].inbound != after[k].inbound
    } by {
        if j != slot {
            assert(before.contains_key(j) && after[j] == before[j]);
        }
        if k != slot {
            assert(before.contains_key(k) && after[k] == before[k]);
        }
    }
}

} // verus!
