//! Raw-code compensation.
//!
//! The chip reports raw ADC codes; the factory trim table turns them into
//! physical units. This module holds the transfer functions as pure
//! integer fixed-point arithmetic (quotients are mathematical floor
//! division throughout): temperature in 1/100 °C, pressure in Pa, relative
//! humidity in 1/1000 %, gas resistance in ohm. Temperature is compensated
//! first: its `t_fine` intermediate feeds the pressure and humidity
//! formulas, so one reading is always converted as a whole via
//! [`compensate`].

use vstd::prelude::*;

use vstd::arithmetic::div_mod::{
    lemma_div_nonincreasing, lemma_div_pos_is_pos, lemma_fundamental_div_mod,
    lemma_fundamental_div_mod_converse,
};

use crate::calib::Calibration;

verus! {

/// Multiplies under caller-supplied magnitude bounds, so that every
/// intermediate product provably fits the machine word.
pub(crate) fn mul128(a: i128, b: i128, Ghost(abound): Ghost<int>, Ghost(bbound): Ghost<int>) -> (r: i128)
    requires
        -abound <= a <= abound,
        -bbound <= b <= bbound,
        abound * bbound <= 0x2000000000000000000000000000000,
    ensures
        r == a * b,
        -(abound * bbound) <= r <= abound * bbound,
{
    proof {
        assert(-(abound * bbound) <= a * b <= abound * bbound) by (nonlinear_arith)
            requires
                -abound <= a <= abound,
                -bbound <= b <= bbound,
        ;
    }
    a * b
}

/// Floor division (the `/` of specifications) for a bounded dividend and
/// a positive divisor.
pub(crate) fn div128(a: i128, b: i128) -> (q: i128)
    requires
        -0x2000000000000000000000000000000 <= a <= 0x2000000000000000000000000000000,
        1 <= b <= 0x8000000000000000,
    ensures
        q == a as int / b as int,
{
    if a >= 0 {
        proof {
            lemma_div_pos_is_pos(a as int, b as int);
            lemma_div_nonincreasing(a as int, b as int);
        }
        ((a as u128) / (b as u128)) as i128
    } else {
        let m: u128 = (-a) as u128;
        let t: u128 = (m + (b as u128) - 1) / (b as u128);
        proof {
            let mi = m as int;
            let bi = b as int;
            lemma_fundamental_div_mod(mi + bi - 1, bi);
            let ti = (mi + bi - 1) / bi;
            let si = (mi + bi - 1) % bi;
            lemma_div_pos_is_pos(mi + bi - 1, bi);
            lemma_div_nonincreasing(mi + bi - 1, bi);
            assert((-ti) * bi + (bi - 1 - si) == -mi) by (nonlinear_arith)
                requires
                    bi * ti + si == mi + bi - 1,
            ;
            lemma_fundamental_div_mod_converse(-mi, bi, -ti, bi - 1 - si);
        }
        -(t as i128)
    }
}

/// `t_fine`, the fixed-point intermediate of temperature compensation,
/// before any application offset.
pub open spec fn spec_t_fine_raw(c: Calibration, temp_adc: u32) -> int {
    let v1 = temp_adc as int / 8 - 2 * c.par_t1;
    let v2 = (v1 * c.par_t2) / 2048;
    let v3 = ((((v1 / 2) * (v1 / 2)) / 4096) * (16 * c.par_t3)) / 16384;
    v2 + v3
}

/// The application's fixed temperature offset (1/100 °C), expressed in
/// `t_fine` units (one degree is 5120 `t_fine` units).
pub open spec fn spec_t_fine_offset(temp_offset_cdeg: i32) -> int {
    (temp_offset_cdeg * 256) / 5
}

/// `t_fine` including the application offset.
pub open spec fn spec_t_fine(c: Calibration, temp_adc: u32, temp_offset_cdeg: i32) -> int {
    spec_t_fine_raw(c, temp_adc) + spec_t_fine_offset(temp_offset_cdeg)
}

/// Compensated temperature in 1/100 °C derived from `t_fine`.
pub open spec fn spec_temperature_cdeg(t_fine: int) -> int {
    (t_fine * 5 + 128) / 256
}

/// Bounds that every `t_fine` built by [`t_fine_from_adc`] satisfies; the
/// pressure and humidity formulas rely on them.
pub open spec fn spec_t_fine_in_range(t_fine: int) -> bool {
    -40000000 <= t_fine <= 40000000
}

/// Largest magnitude accepted for the application temperature offset,
/// in 1/100 °C.
pub const MAX_TEMP_OFFSET_CDEG: i32 = 10000;

/// Computes `t_fine` from the raw 20-bit temperature code, the trim table
/// and the application temperature offset.
pub fn t_fine_from_adc(c: &Calibration, temp_adc: u32, temp_offset_cdeg: i32) -> (t_fine: i64)
    requires
        temp_adc < 0x100000,
        -MAX_TEMP_OFFSET_CDEG <= temp_offset_cdeg <= MAX_TEMP_OFFSET_CDEG,
    ensures
        t_fine == spec_t_fine(*c, temp_adc, temp_offset_cdeg),
        spec_t_fine_in_range(t_fine as int),
{
    let v1: i128 = (temp_adc / 8) as i128 - 2 * (c.par_t1 as i128);
    let p1: i128 = mul128(v1, c.par_t2 as i128, Ghost(131072), Ghost(32768));
    let v2: i128 = div128(p1, 2048);
    let h: i128 = div128(v1, 2);
    let sq: i128 = mul128(h, h, Ghost(65536), Ghost(65536));
    let v3a: i128 = div128(sq, 4096);
    let p2: i128 = mul128(v3a, 16 * (c.par_t3 as i128), Ghost(1048576), Ghost(524288));
    let v3: i128 = div128(p2, 16384);
    let off: i128 = div128((temp_offset_cdeg as i128) * 256, 5);
    (v2 + v3 + off) as i64
}

/// Derives the reported temperature (1/100 °C) from `t_fine`.
pub fn temperature_from_t_fine(t_fine: i64) -> (t_cdeg: i32)
    requires
        spec_t_fine_in_range(t_fine as int),
    ensures
        t_cdeg == spec_temperature_cdeg(t_fine as int),
{
    let t: i128 = div128((t_fine as i128) * 5 + 128, 256);
    t as i32
}

/// Magnitude of a floor quotient is bounded by the magnitude of the
/// dividend, for any positive divisor.
pub(crate) proof fn lemma_div_mag(x: int, b: int, m: int)
    requires
        b >= 1,
        0 <= m,
        -m <= x <= m,
    ensures
        -m <= x / b <= m,
{
    if x >= 0 {
        lemma_div_pos_is_pos(x, b);
        lemma_div_nonincreasing(x, b);
    } else {
        lemma_fundamental_div_mod(x, b);
        let q = x / b;
        let r = x % b;
        assert(x <= q <= 0) by (nonlinear_arith)
            requires
                b >= 1,
                b * q + r == x,
                0 <= r < b,
                x < 0,
        ;
    }
}

/// Saturation of a mathematical integer into the signed 64-bit range.
pub open spec fn spec_sat_i64(x: int) -> int {
    if x > i64::MAX {
        i64::MAX as int
    } else if x < i64::MIN {
        i64::MIN as int
    } else {
        x
    }
}

/// Compensated pressure in Pa, before the application offset.
///
/// A trim table whose decisive first pressure coefficient collapses the
/// scaled divisor to zero or below carries no pressure information; the
/// formula then yields 0 rather than dividing by it.
pub open spec fn spec_pressure_pa(c: Calibration, press_adc: u32, t_fine: int) -> int {
    let v1 = t_fine / 2 - 64000;
    let v2a = ((((v1 / 4) * (v1 / 4)) / 2048) * c.par_p6) / 4;
    let v2b = v2a + v1 * c.par_p5 * 2;
    let v2 = v2b / 4 + c.par_p4 * 65536;
    let va = ((((v1 / 4) * (v1 / 4)) / 8192) * (32 * c.par_p3)) / 8 + (c.par_p2 * v1) / 2;
    let vb = va / 262144;
    let vc = ((32768 + vb) * c.par_p1) / 32768;
    if vc <= 0 {
        0
    } else {
        let pc1 = (1048576 - press_adc - v2 / 4096) * 3125;
        let pc2 = (pc1 * 2) / vc;
        let vd = (c.par_p9 * (((pc2 / 8) * (pc2 / 8)) / 8192)) / 4096;
        let ve = ((pc2 / 4) * c.par_p8) / 8192;
        let vf = ((pc2 / 256) * (pc2 / 256) * (pc2 / 256) * c.par_p10) / 131072;
        pc2 + (vd + ve + vf + 128 * c.par_p7) / 16
    }
}

/// Compensated relative humidity in 1/1000 %, clamped into
/// [0, 100000], before the application offset.
pub open spec fn spec_humidity_milli(c: Calibration, hum_adc: u16, t_fine: int) -> int {
    let ts = (t_fine * 5 + 128) / 256;
    let v1 = hum_adc - c.par_h1 * 16 - ((ts * c.par_h3) / 100) / 2;
    let v2 = (c.par_h2 * ((ts * c.par_h4) / 100 + ((ts * ((ts * c.par_h5) / 100)) / 64) / 100
        + 16384)) / 1024;
    let v3 = v1 * v2;
    let v4 = (c.par_h6 * 128 + (ts * c.par_h7) / 100) / 16;
    let v5 = ((v3 / 16384) * (v3 / 16384)) / 1024;
    let v6 = (v4 * v5) / 2;
    let h = ((v3 + v6) / 1024 * 1000) / 4096;
    if h < 0 {
        0
    } else if h > 100000 {
        100000
    } else {
        h
    }
}

/// Range-dependent scale constant of the gas ADC (signed 2^31 scale).
pub open spec fn spec_gas_const1(range: u8) -> int {
    if range == 5 || range == 13 {
        2126008810
    } else if range == 7 {
        2130303777
    } else if range == 10 {
        2143188679
    } else if range == 11 {
        2136746228
    } else {
        2147483647
    }
}

/// Range-dependent full-scale resistance constant of the gas ADC.
pub open spec fn spec_gas_const2(range: u8) -> int {
    if range == 0 {
        4096000000
    } else if range == 1 {
        2048000000
    } else if range == 2 {
        1024000000
    } else if range == 3 {
        512000000
    } else if range == 4 {
        255744255
    } else if range == 5 {
        127110228
    } else if range == 6 {
        64000000
    } else if range == 7 {
        32258064
    } else if range == 8 {
        16016016
    } else if range == 9 {
        8000000
    } else if range == 10 {
        4000000
    } else if range == 11 {
        2000000
    } else if range == 12 {
        1000000
    } else if range == 13 {
        500000
    } else if range == 14 {
        250000
    } else {
        125000
    }
}

/// Gas resistance in ohm from the raw gas code, its range index and the
/// `range_sw_err` trim coefficient.
pub open spec fn spec_gas_res_ohm(gas_adc: u16, range: u8, range_sw_err: i8) -> int {
    let v1 = ((1340 + 5 * range_sw_err) * spec_gas_const1(range)) / 65536;
    let v2 = gas_adc * 32768 - 16777216 + v1;
    let v3 = (spec_gas_const2(range) * v1) / 512;
    (v3 + v2 / 2) / v2
}

/// Computes the compensated pressure in Pa, already shifted by the
/// application offset and saturated into the 64-bit range (physical
/// configurations stay far inside it).
pub fn pressure_from_adc(c: &Calibration, press_adc: u32, t_fine: i64, press_offset_pa: i32) -> (p:
    i64)
    requires
        press_adc < 0x100000,
        spec_t_fine_in_range(t_fine as int),
    ensures
        p == spec_sat_i64(spec_pressure_pa(*c, press_adc, t_fine as int) + press_offset_pa),
{
    let v1: i128 = div128(t_fine as i128, 2) - 64000;
    let q4: i128 = div128(v1, 4);
    let sq1: i128 = mul128(q4, q4, Ghost(5250000), Ghost(5250000));
    let v2a: i128 = div128(
        mul128(div128(sq1, 2048), c.par_p6 as i128, Ghost(13500000000), Ghost(128)),
        4,
    );
    let v2b: i128 = v2a + mul128(v1, c.par_p5 as i128, Ghost(21000000), Ghost(32768)) * 2;
    let v2: i128 = div128(v2b, 4) + (c.par_p4 as i128) * 65536;
    let va: i128 = div128(
        mul128(div128(sq1, 8192), 32 * (c.par_p3 as i128), Ghost(3400000000), Ghost(4096)),
        8,
    ) + div128(mul128(c.par_p2 as i128, v1, Ghost(32768), Ghost(21000000)), 2);
    let vb: i128 = div128(va, 262144);
    let vc: i128 = div128(
        mul128(32768 + vb, c.par_p1 as i128, Ghost(8000000), Ghost(65536)),
        32768,
    );
    let press: i128 = if vc <= 0 {
        0
    } else {
        let pc1: i128 = (1048576 - press_adc as i128 - div128(v2, 4096)) * 3125;
        let pc2: i128 = div128(pc1 * 2, vc);
        proof {
            lemma_div_mag((pc1 * 2) as int, vc as int, 700000000000);
        }
        let q8: i128 = div128(pc2, 8);
        let vd: i128 = div128(
            mul128(
                c.par_p9 as i128,
                div128(
                    mul128(q8, q8, Ghost(87500000000), Ghost(87500000000)),
                    8192,
                ),
                Ghost(32768),
                Ghost(940000000000000000),
            ),
            4096,
        );
        let ve: i128 = div128(
            mul128(div128(pc2, 4), c.par_p8 as i128, Ghost(175000000000), Ghost(32768)),
            8192,
        );
        let q256: i128 = div128(pc2, 256);
        let cube: i128 = mul128(
            mul128(q256, q256, Ghost(2740000000), Ghost(2740000000)),
            q256,
            Ghost(7507600000000000000),
            Ghost(2740000000),
        );
        let vf: i128 = div128(
            mul128(cube, c.par_p10 as i128, Ghost(20570824000000000000000000000), Ghost(255)),
            131072,
        );
        pc2 + div128(vd + ve + vf + 128 * (c.par_p7 as i128), 16)
    };
    let shifted: i128 = press + press_offset_pa as i128;
    if shifted > i64::MAX as i128 {
        i64::MAX
    } else if shifted < i64::MIN as i128 {
        i64::MIN
    } else {
        shifted as i64
    }
}

/// Computes the compensated relative humidity in 1/1000 %, clamped into
/// [0, 100000]. [`compensate`] adds the application offset on top and
/// clamps the reported value into the same range again.
pub fn humidity_from_adc(c: &Calibration, hum_adc: u16, t_fine: i64) -> (h: u32)
    requires
        spec_t_fine_in_range(t_fine as int),
    ensures
        h == spec_humidity_milli(*c, hum_adc, t_fine as int),
        h <= 100000,
{
    let ts: i128 = div128((t_fine as i128) * 5 + 128, 256);
    let v1: i128 = hum_adc as i128 - (c.par_h1 as i128) * 16 - div128(
        div128(mul128(ts, c.par_h3 as i128, Ghost(790000), Ghost(128)), 100),
        2,
    );
    let inner: i128 = div128(mul128(ts, c.par_h4 as i128, Ghost(790000), Ghost(128)), 100)
        + div128(
        div128(
            mul128(
                ts,
                div128(mul128(ts, c.par_h5 as i128, Ghost(790000), Ghost(128)), 100),
                Ghost(790000),
                Ghost(1020000),
            ),
            64,
        ),
        100,
    ) + 16384;
    let v2: i128 = div128(mul128(c.par_h2 as i128, inner, Ghost(65536), Ghost(130000000)), 1024);
    let v3: i128 = mul128(v1, v2, Ghost(2000000), Ghost(9000000000));
    let v4: i128 = div128(
        (c.par_h6 as i128) * 128 + div128(
            mul128(ts, c.par_h7 as i128, Ghost(790000), Ghost(128)),
            100,
        ),
        16,
    );
    let q14: i128 = div128(v3, 16384);
    let v5: i128 = div128(mul128(q14, q14, Ghost(1100000000000), Ghost(1100000000000)), 1024);
    let v6: i128 = div128(mul128(v4, v5, Ghost(70000), Ghost(1200000000000000000000)), 2);
    let h: i128 = div128(div128(v3 + v6, 1024) * 1000, 4096);
    if h < 0 {
        0
    } else if h > 100000 {
        100000
    } else {
        h as u32
    }
}

/// Looks up the signed-scale gas range constant.
fn gas_const1(range: u8) -> (r: i64)
    ensures
        r == spec_gas_const1(range),
{
    if range == 5 || range == 13 {
        2126008810
    } else if range == 7 {
        2130303777
    } else if range == 10 {
        2143188679
    } else if range == 11 {
        2136746228
    } else {
        2147483647
    }
}

/// Looks up the full-scale gas range constant.
fn gas_const2(range: u8) -> (r: i64)
    ensures
        r == spec_gas_const2(range),
{
    if range == 0 {
        4096000000
    } else if range == 1 {
        2048000000
    } else if range == 2 {
        1024000000
    } else if range == 3 {
        512000000
    } else if range == 4 {
        255744255
    } else if range == 5 {
        127110228
    } else if range == 6 {
        64000000
    } else if range == 7 {
        32258064
    } else if range == 8 {
        16016016
    } else if range == 9 {
        8000000
    } else if range == 10 {
        4000000
    } else if range == 11 {
        2000000
    } else if range == 12 {
        1000000
    } else if range == 13 {
        500000
    } else if range == 14 {
        250000
    } else {
        125000
    }
}

/// Computes the gas resistance in ohm from the raw 10-bit gas code, its
/// range index and the `range_sw_err` trim coefficient.
pub fn gas_res_from_adc(gas_adc: u16, range: u8, range_sw_err: i8) -> (r: u32)
    requires
        gas_adc < 1024,
        range < 16,
    ensures
        r == spec_gas_res_ohm(gas_adc, range, range_sw_err),
{
    let c1: i128 = gas_const1(range) as i128;
    let scale: i128 = 1340 + 5 * (range_sw_err as i128);
    let v1p: i128 = mul128(scale, c1, Ghost(1975), Ghost(2147483647));
    proof {
        assert(v1p >= 700 * 2126008810 && v1p >= 0) by (nonlinear_arith)
            requires
                v1p == scale * c1,
                700 <= scale <= 1975,
                2126008810 <= c1 <= 2147483647,
        ;
    }
    let v1: i128 = div128(v1p, 65536);
    let v2: i128 = (gas_adc as i128) * 32768 - 16777216 + v1;
    let c2: i128 = gas_const2(range) as i128;
    let v3p: i128 = mul128(c2, v1, Ghost(4096000000), Ghost(65000000));
    proof {
        assert(v3p >= 0) by (nonlinear_arith)
            requires
                v3p == c2 * v1,
                c2 >= 0,
                v1 >= 0,
        ;
    }
    let v3: i128 = div128(v3p, 512);
    let x: i128 = v3 + div128(v2, 2);
    proof {
        lemma_div_pos_is_pos(x as int, v2 as int);
        vstd::arithmetic::div_mod::lemma_div_is_ordered_by_denominator(
            x as int,
            5900000,
            v2 as int,
        );
    }
    let r: i128 = div128(x, v2);
    r as u32
}

/// The humidity the node reports: the compensated value shifted by the
/// application offset, clamped into [0 %, 100 %].
pub open spec fn spec_reported_humidity(
    c: Calibration,
    hum_adc: u16,
    t_fine: int,
    hum_offset_milli: int,
) -> int {
    let shifted = spec_humidity_milli(c, hum_adc, t_fine) + hum_offset_milli;
    if shifted < 0 {
        0
    } else if shifted > 100000 {
        100000
    } else {
        shifted
    }
}

/// Raw ADC codes of one forced-mode conversion, as assembled from the
/// data registers.
#[derive(Debug, Clone, Copy)]
pub struct RawReading {
    /// 20-bit temperature code.
    pub temp_adc: u32,
    /// 20-bit pressure code.
    pub press_adc: u32,
    /// 16-bit humidity code.
    pub hum_adc: u16,
    /// 10-bit gas resistance code.
    pub gas_adc: u16,
    /// 4-bit gas range index.
    pub gas_range: u8,
    /// Gas validity status bit: false while the heater has not stabilized.
    pub gas_valid: bool,
}

impl RawReading {
    /// The field widths the hardware guarantees.
    pub open spec fn wf(&self) -> bool {
        &&& self.temp_adc < 0x100000
        &&& self.press_adc < 0x100000
        &&& self.gas_adc < 1024
        &&& self.gas_range < 16
    }
}

/// Fixed application offsets applied on top of the compensated values.
#[derive(Debug, Clone, Copy, PartialEq, Eq, Structural)]
pub struct Offsets {
    /// Added inside `t_fine`, in 1/100 °C.
    pub temp_cdeg: i32,
    /// Added to the pressure output, in Pa.
    pub press_pa: i32,
    /// Added to the clamped humidity output, in 1/1000 %.
    pub hum_milli: i32,
}

impl Offsets {
    /// Sanity bounds on the offsets; far beyond any physical trim.
    pub open spec fn wf(&self) -> bool {
        &&& -MAX_TEMP_OFFSET_CDEG <= self.temp_cdeg <= MAX_TEMP_OFFSET_CDEG
        &&& -1000000 <= self.press_pa <= 1000000
        &&& -1000000 <= self.hum_milli <= 1000000
    }
}

impl Default for Offsets {
    /// The offsets the node ships with: -0.49 °C, +30 Pa, +6 %.
    fn default() -> (o: Offsets)
        ensures
            o == (Offsets { temp_cdeg: -49i32, press_pa: 30i32, hum_milli: 6000i32 }),
            o.wf(),
    {
        Offsets { temp_cdeg: -49, press_pa: 30, hum_milli: 6000 }
    }
}

/// One compensated reading in physical units, timestamped at read time.
///
/// Gas resistance is present only when the sensor reported the gas
/// conversion as valid; absence is meaningful downstream and distinct
/// from zero.
#[derive(Debug, Clone, Copy)]
pub struct Measurements {
    /// Seconds since boot at read time.
    pub timestamp: u64,
    /// 1/100 °C.
    pub temperature_cdeg: i32,
    /// Pa.
    pub pressure_pa: i64,
    /// 1/1000 %, clamped into [0, 100000] after the offset.
    pub humidity_milli: i32,
    /// Ohm, absent while the gas reading is invalid.
    pub gas_res_ohm: Option<u32>,
}

/// Converts one whole raw reading to physical units: temperature first
/// (its `t_fine` feeds the other channels), then pressure, humidity —
/// reported clamped into [0 %, 100 %] even after the application
/// offset — and, only if the sensor flagged it valid, gas resistance.
pub fn compensate(c: &Calibration, raw: &RawReading, off: &Offsets, timestamp: u64) -> (m:
    Measurements)
    requires
        raw.wf(),
        off.wf(),
    ensures
        m.timestamp == timestamp,
        m.temperature_cdeg == spec_temperature_cdeg(
            spec_t_fine(*c, raw.temp_adc, off.temp_cdeg),
        ),
        m.pressure_pa == spec_sat_i64(
            spec_pressure_pa(*c, raw.press_adc, spec_t_fine(*c, raw.temp_adc, off.temp_cdeg))
                + off.press_pa,
        ),
        m.humidity_milli == spec_reported_humidity(
            *c,
            raw.hum_adc,
            spec_t_fine(*c, raw.temp_adc, off.temp_cdeg),
            off.hum_milli as int,
        ),
        0 <= m.humidity_milli <= 100000,
        m.gas_res_ohm is Some <==> raw.gas_valid,
        raw.gas_valid ==> m.gas_res_ohm == Some(
            spec_gas_res_ohm(raw.gas_adc, raw.gas_range, c.range_sw_err) as u32,
        ),
{
    let t_fine: i64 = t_fine_from_adc(c, raw.temp_adc, off.temp_cdeg);
    let temperature_cdeg: i32 = temperature_from_t_fine(t_fine);
    let pressure_pa: i64 = pressure_from_adc(c, raw.press_adc, t_fine, off.press_pa);
    let shifted_humidity: i32 = humidity_from_adc(c, raw.hum_adc, t_fine) as i32 + off.hum_milli;
    let humidity_milli: i32 = if shifted_humidity < 0 {
        0
    } else if shifted_humidity > 100000 {
        100000
    } else {
        shifted_humidity
    };
    let gas_res_ohm: Option<u32> = if raw.gas_valid {
        Some(gas_res_from_adc(raw.gas_adc, raw.gas_range, c.range_sw_err))
    } else {
        None
    };
    Measurements { timestamp, temperature_cdeg, pressure_pa, humidity_milli, gas_res_ohm }
}

/// The compensation formulas are pure: they depend on the raw codes, the
/// trim table and the fixed offsets alone, so identical inputs always
/// yield identical outputs on every channel.
pub proof fn lemma_compensation_deterministic(
    c1: Calibration,
    c2: Calibration,
    r1: RawReading,
    r2: RawReading,
    off1: i32,
    off2: i32,
)
    requires
        c1 == c2,
        r1 == r2,
        off1 == off2,
    ensures
        spec_temperature_cdeg(spec_t_fine(c1, r1.temp_adc, off1)) == spec_temperature_cdeg(
            spec_t_fine(c2, r2.temp_adc, off2),
        ),
        spec_pressure_pa(c1, r1.press_adc, spec_t_fine(c1, r1.temp_adc, off1))
            == spec_pressure_pa(c2, r2.press_adc, spec_t_fine(c2, r2.temp_adc, off2)),
        spec_humidity_milli(c1, r1.hum_adc, spec_t_fine(c1, r1.temp_adc, off1))
            == spec_humidity_milli(c2, r2.hum_adc, spec_t_fine(c2, r2.temp_adc, off2)),
        spec_gas_res_ohm(r1.gas_adc, r1.gas_range, c1.range_sw_err) == spec_gas_res_ohm(
            r2.gas_adc,
            r2.gas_range,
            c2.range_sw_err,
        ),
{
}

/// Whatever the raw humidity code, the trim coefficients and the
/// application offset — out-of-range synthetic codes included — the
/// reported humidity lies within [0 %, 100 %], and so does the
/// compensated value the offset is added to.
pub proof fn lemma_humidity_clamped(
    c: Calibration,
    hum_adc: u16,
    t_fine: int,
    hum_offset_milli: int,
)
    ensures
        0 <= spec_reported_humidity(c, hum_adc, t_fine, hum_offset_milli) <= 100000,
        0 <= spec_humidity_milli(c, hum_adc, t_fine) <= 100000,
{
}

} // verus!
