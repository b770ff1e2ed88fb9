//! Sensor configuration and the register writes that apply it.
//!
//! A [`Config`] gathers the per-cycle settings (oversampling, filter,
//! heater target and duration, heater profile slot). [`setup_writes`]
//! turns it into the exact register write sequence of a device setup:
//! read-modify-write of the two oversampling control registers, the
//! profile-indexed heater wait-time and heater-resistance registers, and
//! the gas control register.

use vstd::prelude::*;

use crate::calib::Calibration;
use crate::comp::{div128, lemma_div_mag, mul128};
use crate::regs::{
    pack_ctrl_gas_1, pack_ctrl_hum, pack_ctrl_meas, spec_nb_conv, spec_osrs_h, spec_osrs_p,
    spec_osrs_t, spec_run_gas, spec_mode, RegisterWrite, MODE_SLEEP, REG_CTRL_GAS_1, REG_CTRL_HUM,
    REG_CTRL_MEAS, REG_GAS_WAIT_0, REG_RES_HEAT_0,
};

verus! {

/// Oversampling class of one physical channel.
#[derive(Debug, Clone, Copy, PartialEq, Eq, Structural)]
pub enum Oversampling {
    Skip,
    X1,
    X2,
    X4,
    X8,
    X16,
}

/// Register field value of an oversampling class.
pub open spec fn spec_oversampling_bits(o: Oversampling) -> int {
    match o {
        Oversampling::Skip => 0,
        Oversampling::X1 => 1,
        Oversampling::X2 => 2,
        Oversampling::X4 => 3,
        Oversampling::X8 => 4,
        Oversampling::X16 => 5,
    }
}

/// The oversampling class a raw field value decodes to, if any.
pub open spec fn spec_oversampling_from_bits(b: u8) -> Option<Oversampling> {
    if b == 0 {
        Some(Oversampling::Skip)
    } else if b == 1 {
        Some(Oversampling::X1)
    } else if b == 2 {
        Some(Oversampling::X2)
    } else if b == 3 {
        Some(Oversampling::X4)
    } else if b == 4 {
        Some(Oversampling::X8)
    } else if b == 5 {
        Some(Oversampling::X16)
    } else {
        None
    }
}

impl Oversampling {
    /// The 3-bit register field value of this class.
    pub fn bits(&self) -> (r: u8)
        ensures
            r == spec_oversampling_bits(*self),
            r < 8,
    {
        match self {
            Oversampling::Skip => 0,
            Oversampling::X1 => 1,
            Oversampling::X2 => 2,
            Oversampling::X4 => 3,
            Oversampling::X8 => 4,
            Oversampling::X16 => 5,
        }
    }

    /// Decodes a raw field value; values above ×16 are not assigned.
    pub fn from_bits(b: u8) -> (r: Option<Oversampling>)
        ensures
            r == spec_oversampling_from_bits(b),
    {
        if b == 0 {
            Some(Oversampling::Skip)
        } else if b == 1 {
            Some(Oversampling::X1)
        } else if b == 2 {
            Some(Oversampling::X2)
        } else if b == 3 {
            Some(Oversampling::X4)
        } else if b == 4 {
            Some(Oversampling::X8)
        } else if b == 5 {
            Some(Oversampling::X16)
        } else {
            None
        }
    }
}

/// IIR low-pass filter coefficient class.
#[derive(Debug, Clone, Copy, PartialEq, Eq, Structural)]
pub enum IIRFilterSize {
    Fc0,
    Fc1,
    Fc3,
    Fc7,
    Fc15,
    Fc31,
    Fc63,
    Fc127,
}

/// Register field value of a filter class.
pub open spec fn spec_filter_bits(f: IIRFilterSize) -> int {
    match f {
        IIRFilterSize::Fc0 => 0,
        IIRFilterSize::Fc1 => 1,
        IIRFilterSize::Fc3 => 2,
        IIRFilterSize::Fc7 => 3,
        IIRFilterSize::Fc15 => 4,
        IIRFilterSize::Fc31 => 5,
        IIRFilterSize::Fc63 => 6,
        IIRFilterSize::Fc127 => 7,
    }
}

impl IIRFilterSize {
    /// The 3-bit register field value of this class.
    pub fn bits(&self) -> (r: u8)
        ensures
            r == spec_filter_bits(*self),
            r < 8,
    {
        match self {
            IIRFilterSize::Fc0 => 0,
            IIRFilterSize::Fc1 => 1,
            IIRFilterSize::Fc3 => 2,
            IIRFilterSize::Fc7 => 3,
            IIRFilterSize::Fc15 => 4,
            IIRFilterSize::Fc31 => 5,
            IIRFilterSize::Fc63 => 6,
            IIRFilterSize::Fc127 => 7,
        }
    }
}

/// Per-cycle sensor configuration.
#[derive(Debug, Clone, Copy, PartialEq, Eq, Structural)]
pub struct Config {
    pub t_oversampling: Oversampling,
    pub p_oversampling: Oversampling,
    pub h_oversampling: Oversampling,
    pub iir_filter: IIRFilterSize,
    /// Heater target temperature in °C.
    pub gas_heater_temp: u16,
    /// Heater pulse duration in ms.
    pub gas_heater_duration_ms: u16,
    pub gas_enabled: bool,
    /// Heater profile slot, 0..=9.
    pub gas_profile: u8,
}

impl Config {
    /// A configuration the setup sequence accepts.
    pub open spec fn wf(&self) -> bool {
        &&& self.gas_profile < 10
        &&& spec_gas_wait_ok(self.gas_heater_duration_ms)
    }
}

impl Default for Config {
    /// The documented power-on configuration of the node.
    fn default() -> (c: Config)
        ensures
            c == (Config {
                t_oversampling: Oversampling::X2,
                p_oversampling: Oversampling::X4,
                h_oversampling: Oversampling::X2,
                iir_filter: IIRFilterSize::Fc0,
                gas_heater_temp: 300u16,
                gas_heater_duration_ms: 100u16,
                gas_enabled: true,
                gas_profile: 0u8,
            }),
            c.wf(),
    {
        Config {
            t_oversampling: Oversampling::X2,
            p_oversampling: Oversampling::X4,
            h_oversampling: Oversampling::X2,
            iir_filter: IIRFilterSize::Fc0,
            gas_heater_temp: 300,
            gas_heater_duration_ms: 100,
            gas_enabled: true,
            gas_profile: 0,
        }
    }
}

/// Multiplier steps available for the heater wait-time encoding, by
/// field value.
pub open spec fn spec_gas_wait_coeff(i: int) -> int {
    if i == 0 {
        1
    } else if i == 1 {
        4
    } else if i == 2 {
        16
    } else {
        64
    }
}

/// The multiplier index the encoding picks: the smallest of
/// {×1, ×4, ×16, ×64} whose quotient fits the 64 ms budget of the 6-bit
/// timer field; 4 when even ×64 does not suffice.
pub open spec fn spec_gas_wait_div(time: u16) -> int {
    if time <= 64 {
        0
    } else if time as int / 4 <= 64 {
        1
    } else if time as int / 16 <= 64 {
        2
    } else if time as int / 64 <= 64 {
        3
    } else {
        4
    }
}

/// Durations whose encoded timer value fits the 6-bit field. The
/// register encoding stores `quotient + 1`, so a quotient of 63 or 64 —
/// reachable only at a handful of durations such as 63 ms or 252 ms —
/// does not fit and is rejected up front.
pub open spec fn spec_gas_wait_ok(time: u16) -> bool {
    let d = spec_gas_wait_div(time);
    d == 4 || time as int / spec_gas_wait_coeff(d) <= 62
}

/// The encoded wait-time register value: multiplier index in the top
/// two bits, `quotient + 1` in the low six; 0 when the duration exceeds
/// every multiplier's range.
pub open spec fn spec_gas_wait_encode(time: u16) -> int {
    let d = spec_gas_wait_div(time);
    if d == 4 {
        0
    } else {
        d * 64 + time as int / spec_gas_wait_coeff(d) + 1
    }
}

/// Encodes a heater pulse duration (ms) into the wait-time register
/// format: 6 bits of timer count plus 2 bits of multiplier.
pub fn calc_gas_wait_time(time: u16) -> (r: u8)
    requires
        spec_gas_wait_ok(time),
    ensures
        r == spec_gas_wait_encode(time),
{
    if time <= 64 {
        (time + 1) as u8
    } else if time / 4 <= 64 {
        64 + (time / 4 + 1) as u8
    } else if time / 16 <= 64 {
        128 + (time / 16 + 1) as u8
    } else if time / 64 <= 64 {
        192 + (time / 64 + 1) as u8
    } else {
        0
    }
}

/// For every duration the timer can express at all, the chosen
/// multiplier is the smallest of {1, 4, 16, 64} whose quotient is at
/// most 64; durations up to 4000 ms are always expressible.
pub proof fn lemma_gas_wait_smallest_multiplier(time: u16)
    requires
        1 <= time <= 4000,
    ensures
        0 <= spec_gas_wait_div(time) <= 3,
        time as int / spec_gas_wait_coeff(spec_gas_wait_div(time)) <= 64,
        forall|j: int|
            0 <= j < spec_gas_wait_div(time) ==> time as int / #[trigger] spec_gas_wait_coeff(j)
                > 64,
{
    let d = spec_gas_wait_div(time);
    assert forall|j: int| 0 <= j < d implies time as int / #[trigger] spec_gas_wait_coeff(j)
        > 64 by {
        if j == 0 {
            assert(time as int / 1 == time as int);
        }
    }
}

/// The multiplier index and the quotient can both be read back from the
/// encoded value: two expressible durations with the same encoding share
/// the multiplier and the quotient. (Two durations that differ only
/// below the multiplier's resolution share an encoding by design.)
pub proof fn lemma_gas_wait_encoding_recoverable(t1: u16, t2: u16)
    requires
        1 <= t1 <= 4000,
        1 <= t2 <= 4000,
        spec_gas_wait_ok(t1),
        spec_gas_wait_ok(t2),
        spec_gas_wait_encode(t1) == spec_gas_wait_encode(t2),
    ensures
        spec_gas_wait_div(t1) == spec_gas_wait_div(t2),
        t1 as int / spec_gas_wait_coeff(spec_gas_wait_div(t1)) == t2 as int
            / spec_gas_wait_coeff(spec_gas_wait_div(t2)),
{
    lemma_gas_wait_smallest_multiplier(t1);
    lemma_gas_wait_smallest_multiplier(t2);
}

/// Ambient temperature (°C) the heater-resistance encoding assumes.
pub const AMBIENT_TEMP_C: i32 = 20;

/// The heater target resistance register value: a fixed polynomial of
/// the target and ambient temperatures and three heater trim
/// coefficients, scaled into the register's units and clamped to the
/// 8-bit range (out-of-range targets saturate silently).
pub open spec fn spec_res_heat(c: Calibration, target_temp: u16, amb_temp: i32) -> int {
    let v1 = ((amb_temp * c.par_g3) / 1000) * 256;
    let v2 = (c.par_g1 + 784) * ((((c.par_g2 + 154009) * (target_temp * 5)) / 100 + 3276800) / 10);
    let v3 = v1 + v2 / 2;
    let v4 = v3 / (c.res_heat_range + 4);
    let v5 = 131 * c.res_heat_val + 65536;
    let rx100 = (v4 / v5 - 250) * 34;
    let r = (rx100 + 50) / 100;
    if r < 0 {
        0
    } else if r > 255 {
        255
    } else {
        r
    }
}

/// Encodes the heater target resistance register value.
pub fn calc_glas_res_heat(target_temp: u16, amb_temp: i32, cal: &Calibration) -> (r: u8)
    requires
        -1000 <= amb_temp <= 1000,
    ensures
        r == spec_res_heat(*cal, target_temp, amb_temp),
{
    let v1: i128 = div128(
        mul128(amb_temp as i128, cal.par_g3 as i128, Ghost(1000), Ghost(128)),
        1000,
    ) * 256;
    let inner: i128 = div128(
        div128(
            mul128((cal.par_g2 as i128) + 154009, (target_temp as i128) * 5, Ghost(190000), Ghost(327675)),
            100,
        ) + 3276800,
        10,
    );
    let v2: i128 = mul128((cal.par_g1 as i128) + 784, inner, Ghost(912), Ghost(63000000));
    let v3: i128 = v1 + div128(v2, 2);
    let divisor: i128 = (cal.res_heat_range as i128) + 4;
    let v4: i128 = div128(v3, divisor);
    proof {
        lemma_div_mag(v3 as int, divisor as int, 30000000000);
    }
    let v5: i128 = 131 * (cal.res_heat_val as i128) + 65536;
    let q: i128 = div128(v4, v5);
    proof {
        lemma_div_mag(v4 as int, v5 as int, 30000000000);
    }
    let rx100: i128 = (q - 250) * 34;
    let r: i128 = div128(rx100 + 50, 100);
    if r < 0 {
        0
    } else if r > 255 {
        255
    } else {
        r as u8
    }
}

/// The register writes that apply a configuration, in bus order: the
/// humidity and main oversampling controls (read-modify-write over the
/// current register values, with the mode field parked at sleep), the
/// profile-indexed heater wait-time and target-resistance registers, and
/// the gas control register selecting the profile and the enable bit.
pub fn setup_writes(
    cal: &Calibration,
    config: &Config,
    cur_ctrl_meas: u8,
    cur_ctrl_hum: u8,
    cur_ctrl_gas_1: u8,
) -> (w: Vec<RegisterWrite>)
    requires
        config.wf(),
    ensures
        w@.len() == 5,
        w@[0].reg == REG_CTRL_HUM,
        spec_osrs_h(w@[0].value) == spec_oversampling_bits(config.h_oversampling),
        w@[0].value as int / 8 == cur_ctrl_hum as int / 8,
        w@[1].reg == REG_CTRL_MEAS,
        spec_osrs_t(w@[1].value) == spec_oversampling_bits(config.t_oversampling),
        spec_osrs_p(w@[1].value) == spec_oversampling_bits(config.p_oversampling),
        spec_mode(w@[1].value) == MODE_SLEEP,
        w@[2].reg == REG_GAS_WAIT_0 + config.gas_profile,
        w@[2].value == spec_gas_wait_encode(config.gas_heater_duration_ms),
        w@[3].reg == REG_RES_HEAT_0 + config.gas_profile,
        w@[3].value == spec_res_heat(*cal, config.gas_heater_temp, AMBIENT_TEMP_C as i32),
        w@[4].reg == REG_CTRL_GAS_1,
        spec_nb_conv(w@[4].value) == config.gas_profile,
        spec_run_gas(w@[4].value) == config.gas_enabled,
        w@[4].value as int / 32 == cur_ctrl_gas_1 as int / 32,
{
    let ctrl_hum = pack_ctrl_hum(cur_ctrl_hum, config.h_oversampling.bits());
    let ctrl_meas = pack_ctrl_meas(
        config.t_oversampling.bits(),
        config.p_oversampling.bits(),
        MODE_SLEEP,
    );
    let gas_wait = calc_gas_wait_time(config.gas_heater_duration_ms);
    let res_heat = calc_glas_res_heat(config.gas_heater_temp, AMBIENT_TEMP_C, cal);
    let ctrl_gas_1 = pack_ctrl_gas_1(cur_ctrl_gas_1, config.gas_profile, config.gas_enabled);
    let mut w: Vec<RegisterWrite> = Vec::new();
    w.push(RegisterWrite { reg: REG_CTRL_HUM, value: ctrl_hum });
    w.push(RegisterWrite { reg: REG_CTRL_MEAS, value: ctrl_meas });
    w.push(RegisterWrite { reg: REG_GAS_WAIT_0 + config.gas_profile, value: gas_wait });
    w.push(RegisterWrite { reg: REG_RES_HEAT_0 + config.gas_profile, value: res_heat });
    w.push(RegisterWrite { reg: REG_CTRL_GAS_1, value: ctrl_gas_1 });
    w
}

} // verus!
