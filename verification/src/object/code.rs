//! Class codes of the device classes that the crate knows by name: the class
//! group code, then the class code.

use vstd::prelude::*;

verus! {

/// Home air conditioner.
pub const HOME_AIR_CONDITIONER: [u8; 2] = [0x01, 0x30];

/// Instantaneous water heater.
pub const INSTANTANEOUS_WATER_HEATER: [u8; 2] = [0x02, 0x72];

/// Household solar power generation.
pub const HOUSEHOLD_SOLAR_POWER: [u8; 2] = [0x02, 0x79];

/// Fuel cell.
pub const FUEL_CELL: [u8; 2] = [0x02, 0x7C];

/// Storage battery.
pub const STORAGE_BATTERY: [u8; 2] = [0x02, 0x7D];

/// Electric vehicle charger and discharger.
pub const EVPS: [u8; 2] = [0x02, 0x7E];

/// Heat pump.
pub const HP: [u8; 2] = [0x02, 0x6B];

/// Power distribution board metering.
pub const POWER_DISTRIBUTION_BOARD_METERING: [u8; 2] = [0x02, 0x87];

/// Low-voltage smart electric energy meter.
pub const SMART_METER: [u8; 2] = [0x02, 0x88];

/// Multiple input power conditioning system.
pub const MULTI_INPUT_PCS: [u8; 2] = [0x02, 0xA5];

/// General lighting.
pub const GENERAL_LIGHTING: [u8; 2] = [0x02, 0x90];

/// Mono functional lighting.
pub const MONO_FUNCTION_LIGHTING: [u8; 2] = [0x02, 0x91];

/// Lighting system.
pub const LIGHTING_SYSTEM: [u8; 2] = [0x02, 0xA3];

/// Controller.
pub const CONTROLLER: [u8; 2] = [0x05, 0xFF];

/// Node profile.
pub const PROFILE: [u8; 2] = [0x0E, 0xF0];

} // verus!
