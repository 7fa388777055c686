//! The registry of channels, keyed by type.
//!
//! The store is `typemap::TypeMap`: it holds at most one value for each key
//! type. Here every key type is a [`ChannelKey`], and the value under it is
//! the caller's side of the channel to one actor. Verus cannot look into the
//! store, so the contracts speak of [`registry_slots`]: for the identity of
//! each key type in use, the view of the channel side stored under it.

use crate::channel::Channel;
use crate::channel::ChannelView;
use std::any::TypeId;
use std::marker::PhantomData;
use typemap::Key;
use typemap::SendMap;
use typemap::TypeMap;
use vstd::prelude::*;

verus! {

#[verifier::external_type_specification]
#[verifier::external_body]
pub struct ExTypeId(TypeId);

/// `TypeId::of`: the identity of the type `K`. Nothing is claimed of it.
#[verifier::external_body]
fn identity_of<K: 'static>() -> (id: TypeId) {
    TypeId::of::<K>()
}

/// Names the slot of one kind of actor: of the actor type `A` together with
/// the type `S` that it sends and the type `R` that it receives.
///
/// The store files a channel under the identity of the key's type. A key
/// records that identity, so that contracts can speak of the slot as a value.
/// Keys are made by `new` alone, which is what keeps record and type in step.
/// Two keys of one type name one slot; since the identity of a type cannot be
/// spoken of in a contract, that is known when the program runs and not
/// before.
pub struct ChannelKey<S, R, A> {
    id: TypeId,
    marker: PhantomData<(S, R, A)>,
}

impl<S: Send + 'static, R: Send + 'static, A: 'static> Key for ChannelKey<S, R, A> {
    type Value = Channel<R, S>;
}

impl<S: Send + 'static, R: Send + 'static, A: 'static> ChannelKey<S, R, A> {
    /// The identity of the slot that the key names.
    pub closed spec fn id(self) -> TypeId {
        self.id
    }

    /// The key of the actor type `A` with its message types.
    pub fn new() -> (key: Self) {
        ChannelKey { id: identity_of::<ChannelKey<S, R, A>>(), marker: PhantomData }
    }
}

/// A store of channel sides with one slot for each key type.
///
/// It is a `typemap::SendMap`. The map stands behind a type of this library
/// because its own type cannot be declared to Verus: its values are trait
/// objects of more than one trait.
#[verifier::external_body]
pub struct TypeRegistry {
    map: SendMap,
}

/// What a registry holds: the view of the channel side in each occupied slot.
pub uninterp spec fn registry_slots(registry: TypeRegistry) -> Map<TypeId, ChannelView>;

/// A registry in which no slot is occupied.
pub open spec fn no_slots() -> Map<TypeId, ChannelView> {
    Map::empty()
}

/// `TypeMap::custom`: a new store. Trusted: it holds nothing.
#[verifier::external_body]
pub(crate) fn registry_new() -> (registry: TypeRegistry)
    ensures
        registry_slots(registry) == no_slots(),
{
    TypeRegistry { map: TypeMap::custom() }
}

/// `TypeMap::insert` with the type of `key` as the key type. Trusted: the
/// slot of that type, which is the slot that `key` records, holds `channel`
/// afterwards and every other slot is as it was; what the slot held before
/// comes back.
#[verifier::external_body]
pub(crate) fn registry_insert<S: Send + 'static, R: Send + 'static, A: 'static>(
    registry: &mut TypeRegistry,
    key: &ChannelKey<S, R, A>,
    channel: Channel<R, S>,
) -> (prior: Option<Channel<R, S>>)
    ensures
        registry_slots(*final(registry)) == registry_slots(*old(registry)).insert(
            key.id(),
            channel@,
        ),
        prior is Some <==> registry_slots(*old(registry)).contains_key(key.id()),
        prior is Some ==> prior.unwrap()@ == registry_slots(*old(registry))[key.id()],
{
    registry.map.insert::<ChannelKey<S, R, A>>(channel)
}

/// `TypeMap::get_mut` with the type of `key` as the key type. Trusted: a
/// channel side comes back exactly when the slot of that type, which is the
/// slot that `key` records, is occupied, and it is the one in that slot;
/// whatever the caller then does to it is done to the slot, and no other slot
/// changes.
#[verifier::external_body]
pub(crate) fn registry_find_mut<'a, S: Send + 'static, R: Send + 'static, A: 'static>(
    registry: &'a mut TypeRegistry,
    key: &ChannelKey<S, R, A>,
) -> (found: Option<&'a mut Channel<R, S>>)
    ensures
        found is Some <==> registry_slots(*old(registry)).contains_key(key.id()),
        found is Some ==> found.unwrap()@ == registry_slots(*old(registry))[key.id()],
        found is Some ==> registry_slots(*final(registry)) == registry_slots(
            *old(registry),
        ).insert(key.id(), final(found.unwrap())@),
        found is None ==> registry_slots(*final(registry)) == registry_slots(*old(registry)),
{
    registry.map.get_mut::<ChannelKey<S, R, A>>()
}

} // verus!
