//! Material definitions and the phase classifier.

use vstd::prelude::*;

verus! {

/// Identity of a registered material.
pub type MaterialId = u8;

/// An RGBA colour, one byte per channel.
#[derive(Clone, Copy, Debug, PartialEq, Eq, Structural)]
pub struct Color {
    pub r: u8,
    pub g: u8,
    pub b: u8,
    pub a: u8,
}

/// Thermal phase of a material sample.
#[derive(Clone, Copy, Debug, PartialEq, Eq, Structural)]
pub enum Phase {
    Solid,
    Liquid,
    Vapor,
}

impl Phase {
    /// Position of the phase in the order Solid < Liquid < Vapor.
    pub open spec fn order(self) -> int {
        match self {
            Phase::Solid => 0,
            Phase::Liquid => 1,
            Phase::Vapor => 2,
        }
    }

    /// Rank of the phase: 0 for solid, 1 for liquid, 2 for vapor.
    pub fn rank(self) -> (r: u8)
        ensures
            r as int == self.order(),
    {
        match self {
            Phase::Solid => 0,
            Phase::Liquid => 1,
            Phase::Vapor => 2,
        }
    }
}

/// Why a material definition is rejected.
#[derive(Clone, Copy, Debug, PartialEq, Eq, Structural)]
pub enum DefinitionFault {
    /// The melting temperature is not below the boiling temperature.
    ThresholdsNotOrdered,
    /// The gas density or the liquid density is negative.
    NegativeDensity,
    /// The heat capacity is negative.
    NegativeHeatCapacity,
    /// The heat resistance is negative.
    NegativeHeatResistance,
}

/// Visual and thermal properties of one substance.
///
/// Densities are fixed-point numbers in a unit of the caller's choice; the
/// simulation only compares them. Temperatures are in Kelvin.
#[derive(Clone, Copy, Debug, PartialEq, Eq, Structural)]
pub struct MaterialDefinition {
    pub id: MaterialId,
    pub vapor_color: Color,
    pub liquid_color: Color,
    pub solid_color: Color,
    /// A rigid material stands still while solid; a material that is not
    /// rigid is granular while solid and falls. The flag is a second axis
    /// beside the phase and bears on the solid phase only: any material
    /// flows while liquid and rises while vapor.
    pub rigid: bool,
    pub gas_density: i64,
    pub liquid_density: i64,
    pub melting_temperature: u32,
    pub boiling_temperature: u32,
    pub heat_capacity: i32,
    pub heat_resistance: i32,
}

impl MaterialDefinition {
    /// A definition is valid when its thresholds are ordered and none of its
    /// densities, capacity and resistance is negative.
    pub open spec fn valid(self) -> bool {
        &&& self.melting_temperature < self.boiling_temperature
        &&& self.gas_density >= 0
        &&& self.liquid_density >= 0
        &&& self.heat_capacity >= 0
        &&& self.heat_resistance >= 0
    }

    /// The first fault of the definition, in the order in which `validate`
    /// looks for them.
    pub open spec fn fault(self) -> Option<DefinitionFault> {
        if self.melting_temperature >= self.boiling_temperature {
            Some(DefinitionFault::ThresholdsNotOrdered)
        } else if self.gas_density < 0 || self.liquid_density < 0 {
            Some(DefinitionFault::NegativeDensity)
        } else if self.heat_capacity < 0 {
            Some(DefinitionFault::NegativeHeatCapacity)
        } else if self.heat_resistance < 0 {
            Some(DefinitionFault::NegativeHeatResistance)
        } else {
            None
        }
    }

    /// Phase of a sample of this material at `temperature`.
    pub open spec fn phase_at(self, temperature: u32) -> Phase {
        if temperature < self.melting_temperature {
            Phase::Solid
        } else if temperature < self.boiling_temperature {
            Phase::Liquid
        } else {
            Phase::Vapor
        }
    }

    /// Colour of this material in `phase`, before noise.
    pub open spec fn base_color(self, phase: Phase) -> Color {
        match phase {
            Phase::Solid => self.solid_color,
            Phase::Liquid => self.liquid_color,
            Phase::Vapor => self.vapor_color,
        }
    }

    /// Checks the definition and names its first fault.
    pub fn validate(&self) -> (r: Result<(), DefinitionFault>)
        ensures
            r is Ok <==> self.valid(),
            r == (match self.fault() {
                Some(f) => Err::<(), DefinitionFault>(f),
                None => Ok(()),
            }),
    {
        if self.melting_temperature >= self.boiling_temperature {
            Err(DefinitionFault::ThresholdsNotOrdered)
        } else if self.gas_density < 0 || self.liquid_density < 0 {
            Err(DefinitionFault::NegativeDensity)
        } else if self.heat_capacity < 0 {
            Err(DefinitionFault::NegativeHeatCapacity)
        } else if self.heat_resistance < 0 {
            Err(DefinitionFault::NegativeHeatResistance)
        } else {
            Ok(())
        }
    }

    /// Classifies a sample at `temperature`: solid below the melting
    /// temperature, vapor from the boiling temperature on, liquid between.
    pub fn phase(&self, temperature: u32) -> (p: Phase)
        ensures
            p == self.phase_at(temperature),
            self.melting_temperature < self.boiling_temperature ==> {
                &&& p == Phase::Solid <==> temperature < self.melting_temperature
                &&& p == Phase::Liquid <==> self.melting_temperature <= temperature
                    < self.boiling_temperature
                &&& p == Phase::Vapor <==> temperature >= self.boiling_temperature
            },
    {
        if temperature < self.melting_temperature {
            Phase::Solid
        } else if temperature < self.boiling_temperature {
            Phase::Liquid
        } else {
            Phase::Vapor
        }
    }

    /// Colour of this material in `phase`, before noise.
    pub fn color_in(&self, phase: Phase) -> (c: Color)
        ensures
            c == self.base_color(phase),
    {
        match phase {
            Phase::Solid => self.solid_color,
            Phase::Liquid => self.liquid_color,
            Phase::Vapor => self.vapor_color,
        }
    }
}

/// Raising the temperature of a material never lowers the rank of its phase.
pub proof fn lemma_phase_monotonic(def: MaterialDefinition, cooler: u32, warmer: u32)
    requires
        cooler <= warmer,
    ensures
        def.phase_at(cooler).order() <= def.phase_at(warmer).order(),
{
}

/// A material whose boiling temperature lies above a range of temperatures is
/// never vapor anywhere in that range.
pub proof fn lemma_no_vapor_below_boiling(def: MaterialDefinition, temperature: u32)
    requires
        temperature < def.boiling_temperature,
    ensures
        def.phase_at(temperature) != Phase::Vapor,
{
}

} // verus!
