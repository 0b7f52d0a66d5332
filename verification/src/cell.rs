//! One slot of the grid.

use vstd::prelude::*;
use crate::material::{MaterialDefinition, MaterialId, Phase};
use crate::registry::MaterialRegistry;

verus! {

/// The noise byte that leaves a colour as it is.
pub const NEUTRAL_NOISE: u8 = 128;

/// A material sample: which material, how hot, and a cosmetic noise byte
/// that only the renderer reads.
#[derive(Clone, Copy, Debug, PartialEq, Eq, Structural)]
pub struct Cell {
    pub material: MaterialId,
    pub temperature: u32,
    pub noise: u8,
}

/// Phase of a cell under a catalogue that holds its material.
pub open spec fn phase_of(materials: Map<MaterialId, MaterialDefinition>, cell: Cell) -> Phase {
    materials[cell.material].phase_at(cell.temperature)
}

/// A granular cell is solid and not rigid: it falls and piles.
pub open spec fn is_granular(materials: Map<MaterialId, MaterialDefinition>, cell: Cell) -> bool {
    phase_of(materials, cell) == Phase::Solid && !materials[cell.material].rigid
}

/// A rigid solid cell is solid and rigid: nothing moves it.
pub open spec fn is_rigid_solid(
    materials: Map<MaterialId, MaterialDefinition>,
    cell: Cell,
) -> bool {
    phase_of(materials, cell) == Phase::Solid && materials[cell.material].rigid
}

impl Cell {
    /// A cell of `material` at `temperature` with the given noise byte.
    pub fn new(material: MaterialId, temperature: u32, noise: u8) -> (cell: Cell)
        ensures
            cell == (Cell { material, temperature, noise }),
    {
        Cell { material, temperature, noise }
    }

    /// The phase of the cell, derived from its temperature and its
    /// material's thresholds; `None` where the registry lacks the material.
    pub fn phase(&self, registry: &MaterialRegistry) -> (p: Option<Phase>)
        ensures
            p == (if registry@.contains_key(self.material) {
                Some(phase_of(registry@, *self))
            } else {
                None
            }),
    {
        match registry.get(self.material) {
            Some(def) => Some(def.phase(self.temperature)),
            None => None,
        }
    }
}

} // verus!
