use crate::section::Section;
use slotmap::{DefaultKey, SlotMap};
use vstd::prelude::*;

verus! {

#[verifier::external_type_specification]
#[verifier::external_body]
pub struct ExDefaultKey(DefaultKey);

/// The arena that owns every section of the pages: a slot map from opaque,
/// session-stable keys to sections. Nothing is ever removed from it.
#[verifier::external_body]
pub struct SectionRegistry {
    map: SlotMap<DefaultKey, Section>,
}

/// The sections that a registry holds, by key.
pub uninterp spec fn registered(r: SectionRegistry) -> Map<DefaultKey, Section>;

/// How many sections a registry holds.
pub uninterp spec fn registry_size(r: SectionRegistry) -> nat;

impl SectionRegistry {
    /// Relies on `SlotMap::new`: a map that holds nothing.
    #[verifier::external_body]
    fn slot_new() -> (r: SectionRegistry)
        ensures
            registered(r).dom() == Set::<DefaultKey>::empty(),
            registry_size(r) == 0,
    {
        SectionRegistry { map: SlotMap::new() }
    }

    /// A registry that holds no section.
    pub fn new() -> (r: SectionRegistry)
        ensures
            registered(r).dom() == Set::<DefaultKey>::empty(),
            registry_size(r) == 0,
    {
        SectionRegistry::slot_new()
    }

    /// Relies on `SlotMap::insert`: the value is stored under a key that no
    /// value held before, and the count of values grows by one. A new map
    /// holds one unused slot, and the map panics once it would need more than
    /// `u32::MAX` slots, that is when it already holds `u32::MAX - 1` values.
    #[verifier::external_body]
    fn slot_insert(&mut self, s: Section) -> (r: DefaultKey)
        requires
            registry_size(*old(self)) + 1 < u32::MAX,
        ensures
            !registered(*old(self)).dom().contains(r),
            registered(*final(self)) == registered(*old(self)).insert(r, s),
            registry_size(*final(self)) == registry_size(*old(self)) + 1,
    {
        self.map.insert(s)
    }

    /// Relies on `SlotMap::len`: the number of values the map holds.
    #[verifier::external_body]
    fn slot_len(&self) -> (r: usize)
        ensures
            r == registry_size(*self),
    {
        self.map.len()
    }

    /// Relies on `SlotMap::get`: the value under a key, if the map holds one.
    #[verifier::external_body]
    fn slot_get(&self, k: DefaultKey) -> (r: Option<&Section>)
        ensures
            r is Some <==> registered(*self).dom().contains(k),
            r is Some ==> *r.unwrap() == registered(*self)[k],
    {
        self.map.get(k)
    }

    /// How many sections the registry holds.
    pub fn len(&self) -> (r: usize)
        ensures
            r == registry_size(*self),
    {
        self.slot_len()
    }

    /// Adds a section under a fresh key and returns the key.
    pub fn insert(&mut self, s: Section) -> (r: DefaultKey)
        requires
            registry_size(*old(self)) + 1 < u32::MAX,
        ensures
            !registered(*old(self)).dom().contains(r),
            registered(*final(self)) == registered(*old(self)).insert(r, s),
            registry_size(*final(self)) == registry_size(*old(self)) + 1,
    {
        self.slot_insert(s)
    }

    /// The section registered under `key`, or `None` where the registry holds
    /// nothing under it.
    pub fn get(&self, key: DefaultKey) -> (r: Option<&Section>)
        ensures
            r is Some <==> registered(*self).dom().contains(key),
            r is Some ==> *r.unwrap() == registered(*self)[key],
    {
        self.slot_get(key)
    }
}

/// Inserting a section and then looking up the key that came back yields
/// that very section, whatever the registry held before.
pub proof fn lemma_insert_then_get(before: SectionRegistry, after: SectionRegistry, key: DefaultKey, s: Section)
    requires
        registered(after) == registered(before).insert(key, s),
    ensures
        registered(after).dom().contains(key),
        registered(after)[key] == s,
{
}

} // verus!
