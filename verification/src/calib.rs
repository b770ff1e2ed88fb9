//! Factory calibration of the sensor.
//!
//! The chip stores ~25 trim coefficients at fixed register addresses; some
//! span two registers, some are packed 12-bit values that share a register.
//! `Calibration::from_registers` reassembles all of them from the raw bytes
//! read off the bus. The table is built once at driver construction and is
//! read-only afterwards.

use vstd::prelude::*;

verus! {

/// The value of the byte `b` read as a two's-complement 8-bit integer.
pub open spec fn spec_signed8(b: u8) -> int {
    if b < 128 {
        b as int
    } else {
        b as int - 256
    }
}

/// The 16-bit value assembled from a low and a high byte.
pub open spec fn spec_u16_pair(lsb: u8, msb: u8) -> int {
    msb as int * 256 + lsb as int
}

/// The pair `(lsb, msb)` read as a two's-complement 16-bit integer.
pub open spec fn spec_signed16_pair(lsb: u8, msb: u8) -> int {
    if spec_u16_pair(lsb, msb) < 32768 {
        spec_u16_pair(lsb, msb)
    } else {
        spec_u16_pair(lsb, msb) - 65536
    }
}

/// Reads a byte as a two's-complement 8-bit integer.
pub fn signed8(b: u8) -> (r: i8)
    ensures
        r as int == spec_signed8(b),
{
    if b < 128 {
        b as i8
    } else {
        ((b as i16) - 256) as i8
    }
}

/// Assembles a 16-bit register value from its low and high bytes.
pub fn u16_pair(lsb: u8, msb: u8) -> (r: u16)
    ensures
        r as int == spec_u16_pair(lsb, msb),
{
    (msb as u16) * 256 + (lsb as u16)
}

/// Reads a two-byte register pair as a two's-complement 16-bit integer.
pub fn signed16_pair(lsb: u8, msb: u8) -> (r: i16)
    ensures
        r as int == spec_signed16_pair(lsb, msb),
{
    let v: u16 = u16_pair(lsb, msb);
    if v < 32768 {
        v as i16
    } else {
        ((v as i32) - 65536) as i16
    }
}

/// Raw bytes of the calibration area, one field per register address.
///
/// Field names carry the register address on the chip; the bus glue fills
/// this struct with single-register reads.
#[derive(Debug, Clone, Copy)]
pub struct CalibRegs {
    pub r8a: u8,
    pub r8b: u8,
    pub r8c: u8,
    pub r8e: u8,
    pub r8f: u8,
    pub r90: u8,
    pub r91: u8,
    pub r92: u8,
    pub r94: u8,
    pub r95: u8,
    pub r96: u8,
    pub r97: u8,
    pub r98: u8,
    pub r99: u8,
    pub r9c: u8,
    pub r9d: u8,
    pub r9e: u8,
    pub r9f: u8,
    pub ra0: u8,
    pub re1: u8,
    pub re2: u8,
    pub re3: u8,
    pub re4: u8,
    pub re5: u8,
    pub re6: u8,
    pub re7: u8,
    pub re8: u8,
    pub re9: u8,
    pub rea: u8,
    pub reb: u8,
    pub rec: u8,
    pub red: u8,
    pub ree: u8,
    pub r00: u8,
    pub r02: u8,
    pub r04: u8,
}

/// Decoded factory trim coefficients.
#[derive(Debug, Clone, Copy, Default)]
pub struct Calibration {
    // temperature sensor
    pub par_t1: u16,
    pub par_t2: i16,
    /// Wider than the chip's single signed byte so synthetic trim
    /// tables can exercise the full formula.
    pub par_t3: i16,
    // pressure sensor
    pub par_p1: u16,
    pub par_p2: i16,
    pub par_p3: i8,
    pub par_p4: i16,
    pub par_p5: i16,
    pub par_p6: i8,
    pub par_p7: i8,
    pub par_p8: i16,
    pub par_p9: i16,
    pub par_p10: u8,
    // humidity
    pub par_h1: u16,
    pub par_h2: u16,
    pub par_h3: i8,
    pub par_h4: i8,
    pub par_h5: i8,
    pub par_h6: u8,
    pub par_h7: i8,
    // gas sensor
    pub par_g1: i8,
    pub par_g2: i16,
    pub par_g3: i8,
    pub res_heat_range: u8,
    pub res_heat_val: i8,
    pub range_sw_err: i8,
}

impl Calibration {
    /// Decodes the whole trim table from the raw calibration bytes.
    ///
    /// Multi-byte coefficients are reassembled least-significant-byte
    /// first unless noted; `par_h1`/`par_h2` are 12-bit values that share
    /// register `0xE2`; `res_heat_range` sits in bits 4..=5 of `0x02`;
    /// `range_sw_err` is the signed upper nibble of `0x04`.
    pub fn from_registers(regs: &CalibRegs) -> (c: Calibration)
        ensures
            c.par_t1 as int == spec_u16_pair(regs.re9, regs.rea),
            c.par_t2 as int == spec_signed16_pair(regs.r8a, regs.r8b),
            c.par_t3 as int == spec_signed8(regs.r8c),
            c.par_p1 as int == spec_u16_pair(regs.r8e, regs.r8f),
            c.par_p2 as int == spec_signed16_pair(regs.r90, regs.r91),
            c.par_p3 as int == spec_signed8(regs.r92),
            c.par_p4 as int == spec_signed16_pair(regs.r94, regs.r95),
            c.par_p5 as int == spec_signed16_pair(regs.r96, regs.r97),
            c.par_p6 as int == spec_signed8(regs.r99),
            c.par_p7 as int == spec_signed8(regs.r98),
            c.par_p8 as int == spec_signed16_pair(regs.r9c, regs.r9d),
            c.par_p9 as int == spec_signed16_pair(regs.r9e, regs.r9f),
            c.par_p10 == regs.ra0,
            c.par_h1 as int == spec_u16_pair(regs.re2, regs.re3) / 16,
            c.par_h2 as int == spec_u16_pair(regs.re2, regs.re1) / 16,
            c.par_h3 as int == spec_signed8(regs.re4),
            c.par_h4 as int == spec_signed8(regs.re5),
            c.par_h5 as int == spec_signed8(regs.re6),
            c.par_h6 == regs.re7,
            c.par_h7 as int == spec_signed8(regs.re8),
            c.par_g1 as int == spec_signed8(regs.red),
            c.par_g2 as int == spec_signed16_pair(regs.reb, regs.rec),
            c.par_g3 as int == spec_signed8(regs.ree),
            c.res_heat_range as int == regs.r02 as int / 16 % 4,
            c.res_heat_val as int == spec_signed8(regs.r00),
            c.range_sw_err as int == spec_signed8(regs.r04) / 16,
    {
        Calibration {
            par_t1: u16_pair(regs.re9, regs.rea),
            par_t2: signed16_pair(regs.r8a, regs.r8b),
            par_t3: signed8(regs.r8c) as i16,
            par_p1: u16_pair(regs.r8e, regs.r8f),
            par_p2: signed16_pair(regs.r90, regs.r91),
            par_p3: signed8(regs.r92),
            par_p4: signed16_pair(regs.r94, regs.r95),
            par_p5: signed16_pair(regs.r96, regs.r97),
            par_p6: signed8(regs.r99),
            par_p7: signed8(regs.r98),
            par_p8: signed16_pair(regs.r9c, regs.r9d),
            par_p9: signed16_pair(regs.r9e, regs.r9f),
            par_p10: regs.ra0,
            par_h1: u16_pair(regs.re2, regs.re3) / 16,
            par_h2: u16_pair(regs.re2, regs.re1) / 16,
            par_h3: signed8(regs.re4),
            par_h4: signed8(regs.re5),
            par_h5: signed8(regs.re6),
            par_h6: regs.re7,
            par_h7: signed8(regs.re8),
            par_g1: signed8(regs.red),
            par_g2: signed16_pair(regs.reb, regs.rec),
            par_g3: signed8(regs.ree),
            res_heat_range: regs.r02 / 16 % 4,
            res_heat_val: signed8(regs.r00),
            range_sw_err: signed_upper_nibble(regs.r04),
        }
    }
}

/// Reads the upper nibble of a byte as a signed 4-bit field, i.e. the byte
/// taken as a two's-complement value and arithmetically shifted right by 4.
pub fn signed_upper_nibble(b: u8) -> (r: i8)
    ensures
        r as int == spec_signed8(b) / 16,
{
    proof {
        assert(b >= 128 ==> (b as int - 256) / 16 == b as int / 16 - 16) by (nonlinear_arith);
        assert(b < 128 ==> spec_signed8(b) / 16 == b as int / 16);
    }
    if b < 128 {
        (b / 16) as i8
    } else {
        ((b / 16) as i8) - 16
    }
}

} // verus!
