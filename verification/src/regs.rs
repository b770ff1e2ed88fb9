//! Hardware register layout.
//!
//! Register addresses, the packed bit fields of the control registers and
//! the reassembly of multi-register ADC codes. Every field is an explicit
//! scale/remainder decomposition (bits `a..=b` of `v` are
//! `v / 2^a % 2^(b-a+1)`), so the contracts stay in plain arithmetic.

use vstd::prelude::*;

verus! {

/// Bus address of the sensor device.
pub const DEVICE_ADDR: u8 = 0x76;

/// Expected content of the identification register.
pub const CHIP_ID: u8 = 0x61;

/// Value written to the reset register for a soft reset.
pub const RESET_CMD: u8 = 0xB6;

pub const REG_STATUS: u8 = 0x73;

pub const REG_RESET: u8 = 0xE0;

pub const REG_ID: u8 = 0xD0;

pub const REG_CONFIG: u8 = 0x75;

/// `osrs_t<7:5> | osrs_p<4:2> | mode<1:0>`
pub const REG_CTRL_MEAS: u8 = 0x74;

pub const REG_CTRL_HUM: u8 = 0x72;

pub const REG_CTRL_GAS_1: u8 = 0x71;

pub const REG_CTRL_GAS_0: u8 = 0x70;

/// First of the ten heater wait-time registers (0x64..=0x6D).
pub const REG_GAS_WAIT_0: u8 = 0x64;

/// Base the heater-resistance registers are indexed from.
pub const REG_RES_HEAT_0: u8 = 0x63;

pub const REG_GAS_R_LSB: u8 = 0x2B;

pub const REG_GAS_R_MSB: u8 = 0x2A;

pub const REG_HUM_LSB: u8 = 0x26;

pub const REG_HUM_MSB: u8 = 0x25;

pub const REG_TEMP_XLSB: u8 = 0x24;

pub const REG_TEMP_LSB: u8 = 0x23;

pub const REG_TEMP_MSB: u8 = 0x22;

pub const REG_PRESS_XLSB: u8 = 0x21;

pub const REG_PRESS_LSB: u8 = 0x20;

pub const REG_PRESS_MSB: u8 = 0x1F;

pub const REG_MEAS_STATUS_0: u8 = 0x1D;

/// Device mode field value: sleep.
pub const MODE_SLEEP: u8 = 0;

/// Device mode field value: one forced conversion.
pub const MODE_FORCED: u8 = 1;

/// One register write of a configuration sequence.
#[derive(Debug, Clone, Copy, PartialEq, Eq, Structural)]
pub struct RegisterWrite {
    pub reg: u8,
    pub value: u8,
}

/// Temperature oversampling field of `ctrl_meas` (bits 5..=7).
pub open spec fn spec_osrs_t(v: u8) -> int {
    v as int / 32
}

/// Pressure oversampling field of `ctrl_meas` (bits 2..=4).
pub open spec fn spec_osrs_p(v: u8) -> int {
    v as int / 4 % 8
}

/// Mode field of `ctrl_meas` (bits 0..=1).
pub open spec fn spec_mode(v: u8) -> int {
    v as int % 4
}

/// Humidity oversampling field of `ctrl_hum` (bits 0..=2).
pub open spec fn spec_osrs_h(v: u8) -> int {
    v as int % 8
}

/// Heater set-point index field of `ctrl_gas_1` (bits 0..=3).
pub open spec fn spec_nb_conv(v: u8) -> int {
    v as int % 16
}

/// Gas-conversion enable bit of `ctrl_gas_1` (bit 4).
pub open spec fn spec_run_gas(v: u8) -> bool {
    v as int / 16 % 2 == 1
}

/// `measuring` bit of `meas_status_0` (bit 5): a conversion is in flight.
pub open spec fn spec_measuring(v: u8) -> bool {
    v as int / 32 % 2 == 1
}

/// Gas validity bit of `gas_r_lsb` (bit 5).
pub open spec fn spec_gas_valid(v: u8) -> bool {
    v as int / 32 % 2 == 1
}

/// Gas range field of `gas_r_lsb` (bits 0..=3).
pub open spec fn spec_gas_range(v: u8) -> int {
    v as int % 16
}

/// Packs both oversampling fields and the mode into a `ctrl_meas` value.
/// The three fields cover the whole register, so nothing of the old value
/// survives.
pub fn pack_ctrl_meas(t_os: u8, p_os: u8, mode: u8) -> (r: u8)
    requires
        t_os < 8,
        p_os < 8,
        mode < 4,
    ensures
        spec_osrs_t(r) == t_os,
        spec_osrs_p(r) == p_os,
        spec_mode(r) == mode,
{
    t_os * 32 + p_os * 4 + mode
}

/// Replaces the mode field of a `ctrl_meas` value with "forced", leaving
/// both oversampling fields untouched.
pub fn pack_ctrl_meas_forced(old_value: u8) -> (r: u8)
    ensures
        spec_mode(r) == MODE_FORCED,
        spec_osrs_t(r) == spec_osrs_t(old_value),
        spec_osrs_p(r) == spec_osrs_p(old_value),
{
    (old_value / 4) * 4 + MODE_FORCED
}

/// Replaces the humidity oversampling field of a `ctrl_hum` value,
/// leaving the reserved upper bits untouched.
pub fn pack_ctrl_hum(old_value: u8, h_os: u8) -> (r: u8)
    requires
        h_os < 8,
    ensures
        spec_osrs_h(r) == h_os,
        r as int / 8 == old_value as int / 8,
{
    (old_value / 8) * 8 + h_os
}

/// Replaces the heater set-point index and the gas enable bit of a
/// `ctrl_gas_1` value, leaving the reserved upper bits untouched.
pub fn pack_ctrl_gas_1(old_value: u8, nb_conv: u8, run_gas: bool) -> (r: u8)
    requires
        nb_conv < 16,
    ensures
        spec_nb_conv(r) == nb_conv,
        spec_run_gas(r) == run_gas,
        r as int / 32 == old_value as int / 32,
{
    (old_value / 32) * 32 + (if run_gas {
        16
    } else {
        0
    }) + nb_conv
}

/// True when the status register reports an in-flight conversion.
pub fn status_measuring(status: u8) -> (busy: bool)
    ensures
        busy == spec_measuring(status),
{
    status / 32 % 2 == 1
}

/// True when an identification register read matches the expected id.
pub fn chip_id_matches(id: u8) -> (ok: bool)
    ensures
        ok == (id == CHIP_ID),
{
    id == CHIP_ID
}

/// 20-bit ADC code `msb<7:0> | lsb<7:0> | xlsb<7:4>`, as used by the
/// temperature and pressure channels.
pub open spec fn spec_adc20(msb: u8, lsb: u8, xlsb: u8) -> int {
    (msb * 256 + lsb) * 16 + xlsb / 16
}

/// Assembles a 20-bit temperature or pressure code from its three data
/// registers.
pub fn adc20(msb: u8, lsb: u8, xlsb: u8) -> (r: u32)
    ensures
        r == spec_adc20(msb, lsb, xlsb),
        r < 0x100000,
{
    ((msb as u32) * 256 + (lsb as u32)) * 16 + (xlsb as u32) / 16
}

/// 16-bit humidity code `msb<7:0> | lsb<7:0>`.
pub open spec fn spec_adc16(msb: u8, lsb: u8) -> int {
    msb * 256 + lsb
}

/// Assembles the 16-bit humidity code from its two data registers.
pub fn adc16(msb: u8, lsb: u8) -> (r: u16)
    ensures
        r == spec_adc16(msb, lsb),
{
    (msb as u16) * 256 + (lsb as u16)
}

/// 10-bit gas code `msb<7:0> | lsb<7:6>`.
pub open spec fn spec_adc10(msb: u8, lsb: u8) -> int {
    msb * 4 + lsb / 64
}

/// Assembles the 10-bit gas resistance code from its two data registers.
pub fn adc10(msb: u8, lsb: u8) -> (r: u16)
    ensures
        r == spec_adc10(msb, lsb),
        r < 1024,
{
    (msb as u16) * 4 + (lsb as u16) / 64
}

} // verus!
