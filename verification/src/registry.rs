//! The catalogue of material definitions.

use vstd::prelude::*;
use crate::material::{DefinitionFault, MaterialDefinition, MaterialId};

verus! {

/// Why a registration is refused.
#[derive(Clone, Copy, Debug, PartialEq, Eq, Structural)]
pub enum RegistryError {
    /// The definition is not valid; the fault is its first one.
    InvalidMaterialDefinition(DefinitionFault),
    /// A definition with the same id is registered already.
    DuplicateId,
}

/// Every entry of a catalogue is valid and stored under its own id.
pub open spec fn catalogue_valid(entries: Map<MaterialId, MaterialDefinition>) -> bool {
    forall|id: MaterialId| #[trigger]
        entries.contains_key(id) ==> entries[id].valid() && entries[id].id == id
}

/// An immutable-once-registered catalogue of material definitions, keyed by id.
pub struct MaterialRegistry {
    slots: Vec<Option<MaterialDefinition>>,
}

impl View for MaterialRegistry {
    type V = Map<MaterialId, MaterialDefinition>;

    closed spec fn view(&self) -> Map<MaterialId, MaterialDefinition> {
        Map::new(
            |id: MaterialId| (id as int) < self.slots@.len() && self.slots@[id as int] is Some,
            |id: MaterialId| self.slots@[id as int].unwrap(),
        )
    }
}

impl MaterialRegistry {
    /// The registry holds only valid definitions, each under its own id.
    pub open spec fn wf(&self) -> bool {
        catalogue_valid(self@)
    }

    /// A registry without entries.
    pub fn new() -> (registry: MaterialRegistry)
        ensures
            registry.wf(),
            registry@ == Map::<MaterialId, MaterialDefinition>::empty(),
    {
        let registry = MaterialRegistry { slots: Vec::new() };
        registry
    }

    /// Adds a definition. A definition that is not valid is refused with its
    /// first fault, a valid one whose id is taken with `DuplicateId`; a
    /// refusal leaves the registry as it was.
    pub fn register(&mut self, def: MaterialDefinition) -> (r: Result<MaterialId, RegistryError>)
        requires
            old(self).wf(),
        ensures
            final(self).wf(),
            match r {
                Ok(id) => {
                    &&& def.valid()
                    &&& !old(self)@.contains_key(def.id)
                    &&& id == def.id
                    &&& final(self)@ == old(self)@.insert(def.id, def)
                },
                Err(RegistryError::InvalidMaterialDefinition(f)) => {
                    &&& def.fault() == Some(f)
                    &&& !def.valid()
                    &&& final(self)@ == old(self)@
                },
                Err(RegistryError::DuplicateId) => {
                    &&& def.valid()
                    &&& old(self)@.contains_key(def.id)
                    &&& final(self)@ == old(self)@
                },
            },
    {
        match def.validate() {
            Err(f) => {
                return Err(RegistryError::InvalidMaterialDefinition(f));
            },
            Ok(()) => {},
        }
        let slot: usize = def.id as usize;
        if slot < self.slots.len() && self.slots[slot].is_some() {
            return Err(RegistryError::DuplicateId);
        }
        while self.slots.len() <= slot
            invariant
                self@ =~= old(self)@,
                slot == def.id as usize,
                !old(self)@.contains_key(def.id),
            decreases slot + 1 - self.slots.len(),
        {
            self.slots.push(None);
        }
        self.slots.set(slot, Some(def));
        assert(self@ =~= old(self)@.insert(def.id, def));
        Ok(def.id)
    }

    /// Whether a definition with this id is registered.
    pub fn contains(&self, id: MaterialId) -> (found: bool)
        ensures
            found == self@.contains_key(id),
    {
        let slot: usize = id as usize;
        slot < self.slots.len() && self.slots[slot].is_some()
    }

    /// The definition registered under `id`, if there is one.
    pub fn get(&self, id: MaterialId) -> (def: Option<MaterialDefinition>)
        ensures
            def == (if self@.contains_key(id) {
                Some(self@[id])
            } else {
                None
            }),
    {
        let slot: usize = id as usize;
        if slot < self.slots.len() {
            self.slots[slot]
        } else {
            None
        }
    }
}

/// Every registered definition has its melting temperature below its boiling
/// temperature.
pub proof fn lemma_registered_thresholds_ordered(registry: MaterialRegistry, id: MaterialId)
    requires
        registry.wf(),
        registry@.contains_key(id),
    ensures
        registry@[id].melting_temperature < registry@[id].boiling_temperature,
        registry@[id].valid(),
{
}

} // verus!
