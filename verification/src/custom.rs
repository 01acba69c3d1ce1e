//! The registry of custom event types: which SDL event type number stands for which Rust
//! type.

use std::collections::HashMap;
use vstd::prelude::*;

verus! {

broadcast use vstd::std_specs::hash::group_hash_axioms;

/// The contents of a registry of custom event types: from SDL event type numbers to the keys
/// of Rust types, and back.
pub ghost struct CustomEventTypesView {
    pub sdl_id_to_type_id: Map<u32, u64>,
    pub type_id_to_sdl_id: Map<u64, u32>,
}

impl CustomEventTypesView {
    /// The registry after the type with key `type_id` is registered as event type `event_id`.
    pub open spec fn registered(self, event_id: u32, type_id: u64) -> CustomEventTypesView {
        CustomEventTypesView {
            sdl_id_to_type_id: self.sdl_id_to_type_id.insert(event_id, type_id),
            type_id_to_sdl_id: self.type_id_to_sdl_id.insert(type_id, event_id),
        }
    }
}

/// A registry of custom event types. A Rust type is known by a key that stands for its
/// type identity.
pub struct CustomEventTypeMaps {
    sdl_id_to_type_id: HashMap<u32, u64>,
    type_id_to_sdl_id: HashMap<u64, u32>,
}

impl View for CustomEventTypeMaps {
    type V = CustomEventTypesView;

    closed spec fn view(&self) -> CustomEventTypesView {
        CustomEventTypesView {
            sdl_id_to_type_id: self.sdl_id_to_type_id@,
            type_id_to_sdl_id: self.type_id_to_sdl_id@,
        }
    }
}

impl CustomEventTypeMaps {
    /// An empty registry.
    pub fn new() -> (r: CustomEventTypeMaps)
        ensures
            r@.sdl_id_to_type_id == Map::<u32, u64>::empty(),
            r@.type_id_to_sdl_id == Map::<u64, u32>::empty(),
    {
        CustomEventTypeMaps { sdl_id_to_type_id: HashMap::new(), type_id_to_sdl_id: HashMap::new() }
    }

    /// The event type number registered for the type with key `type_id`, if any.
    pub fn sdl_id_of(&self, type_id: u64) -> (r: Option<u32>)
        ensures
            r is Some <==> self@.type_id_to_sdl_id.contains_key(type_id),
            r matches Some(id) ==> id == self@.type_id_to_sdl_id[type_id],
    {
        match self.type_id_to_sdl_id.get(&type_id) {
            Some(id) => Some(*id),
            None => None,
        }
    }

    /// The key of the type registered for event type number `event_id`, if any.
    pub fn type_id_of(&self, event_id: u32) -> (r: Option<u64>)
        ensures
            r is Some <==> self@.sdl_id_to_type_id.contains_key(event_id),
            r matches Some(t) ==> t == self@.sdl_id_to_type_id[event_id],
    {
        match self.sdl_id_to_type_id.get(&event_id) {
            Some(t) => Some(*t),
            None => None,
        }
    }

    /// Registers the type with key `type_id` as event type `event_id`. A type that is
    /// registered already is refused, and the registry is left as it was.
    pub fn register(&mut self, event_id: u32, type_id: u64) -> (r: Result<(), String>)
        ensures
            r is Err <==> old(self)@.type_id_to_sdl_id.contains_key(type_id),
            r matches Err(msg) ==> msg@ == "The same event type can not be registered twice!"@
                && final(self)@ == old(self)@,
            r is Ok ==> final(self)@ == old(self)@.registered(event_id, type_id),
    {
        if self.type_id_to_sdl_id.contains_key(&type_id) {
            return Err("The same event type can not be registered twice!".to_owned());
        }
        self.sdl_id_to_type_id.insert(event_id, type_id);
        self.type_id_to_sdl_id.insert(type_id, event_id);
        Ok(())
    }
}

/// After a registration, the registry gives back the event type number for the type and the
/// type for the number, and a second registration of the same type is refused.
pub proof fn lemma_registered(v: CustomEventTypesView, event_id: u32, type_id: u64)
    ensures
        v.registered(event_id, type_id).type_id_to_sdl_id.contains_key(type_id),
        v.registered(event_id, type_id).type_id_to_sdl_id[type_id] == event_id,
        v.registered(event_id, type_id).sdl_id_to_type_id.contains_key(event_id),
        v.registered(event_id, type_id).sdl_id_to_type_id[event_id] == type_id,
{
}

} // verus!
