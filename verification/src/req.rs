//! Measurement selection shared with the node's consumers.
//!
//! A [`MeasurementMask`] is a bitmask over the reported measurement
//! kinds; consumers use it to pick which series they want.

use vstd::prelude::*;

verus! {

/// One reported measurement kind.
#[derive(Debug, Clone, Copy, PartialEq, Eq, Structural)]
pub enum MeasurementType {
    Temperature,
    Humidity,
    Pressure,
    BatCapacity,
    BatVoltage,
    AirQuality,
}

/// The mask bit of a measurement kind.
pub open spec fn spec_type_mask(t: MeasurementType) -> u32 {
    match t {
        MeasurementType::Temperature => 1u32,
        MeasurementType::Humidity => 2u32,
        MeasurementType::Pressure => 4u32,
        MeasurementType::BatCapacity => 8u32,
        MeasurementType::BatVoltage => 16u32,
        MeasurementType::AirQuality => 32u32,
    }
}

impl MeasurementType {
    /// The mask bit of this kind.
    pub fn mask(&self) -> (m: u32)
        ensures
            m == spec_type_mask(*self),
    {
        match self {
            MeasurementType::Temperature => 1,
            MeasurementType::Humidity => 2,
            MeasurementType::Pressure => 4,
            MeasurementType::BatCapacity => 8,
            MeasurementType::BatVoltage => 16,
            MeasurementType::AirQuality => 32,
        }
    }
}

/// Key facts about one device's stored measurements.
#[derive(Debug, Clone, Copy, PartialEq, Eq, Structural)]
pub struct MeasurementInfo {
    pub device_id: i32,
    pub from_timestamp: i64,
    pub to_timestamp: i64,
    pub count: i64,
}

/// A selection of measurement kinds, one bit per kind.
#[derive(Debug, Clone, Copy, PartialEq, Eq, Structural)]
pub struct MeasurementMask(pub u32);

/// Whether a mask selects a kind.
pub open spec fn spec_mask_is_set(bits: u32, t: MeasurementType) -> bool {
    bits & spec_type_mask(t) > 0
}

/// The mask after switching one kind on or off.
pub open spec fn spec_mask_set(bits: u32, t: MeasurementType, active: bool) -> u32 {
    if active {
        bits | spec_type_mask(t)
    } else {
        bits & !spec_type_mask(t)
    }
}

impl MeasurementMask {
    /// True when this mask selects the given kind.
    pub fn is_set(&self, other: MeasurementType) -> (r: bool)
        ensures
            r == spec_mask_is_set(self.0, other),
    {
        self.0 & other.mask() > 0
    }

    /// Switches one kind on or off.
    pub fn set(&mut self, other: MeasurementType, active: bool)
        ensures
            final(self).0 == spec_mask_set(old(self).0, other, active),
    {
        if active {
            self.0 = self.0 | other.mask();
        } else {
            self.0 = self.0 & !other.mask();
        }
    }

    /// Builds the mask that selects every kind.
    pub fn all() -> (m: MeasurementMask)
        ensures
            m.0 == 0xFFFFFFFFu32,
    {
        MeasurementMask(0xFFFFFFFF)
    }
}

impl Default for MeasurementMask {
    /// The default selection: temperature only.
    fn default() -> (m: MeasurementMask)
        ensures
            m.0 == 1u32,
    {
        MeasurementMask(1)
    }
}

/// Turning a kind on or off is faithfully read back by `is_set`,
/// whatever else the mask holds.
pub proof fn lemma_mask_set_round_trip(bits: u32, t: MeasurementType, active: bool)
    ensures
        spec_mask_is_set(spec_mask_set(bits, t, active), t) == active,
{
    let m = spec_type_mask(t);
    assert(m != 0);
    assert((bits | m) & m > 0 && (bits & !m) & m == 0) by (bit_vector)
        requires
            m != 0u32,
    ;
}

} // verus!
