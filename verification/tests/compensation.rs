use sensor_node::calib::{CalibRegs, Calibration};
use sensor_node::comp::{
    compensate, gas_res_from_adc, humidity_from_adc, pressure_from_adc, t_fine_from_adc,
    temperature_from_t_fine, Measurements, Offsets, RawReading,
};
use sensor_node::driver::{calc_gas_wait_time, calc_glas_res_heat};

fn typical_calibration() -> Calibration {
    Calibration {
        par_t1: 26170,
        par_t2: 26209,
        par_t3: 3,
        par_p1: 36500,
        par_p2: -10230,
        par_p3: 88,
        par_p4: 7100,
        par_p5: -120,
        par_p6: 30,
        par_p7: 30,
        par_p8: -4000,
        par_p9: -2700,
        par_p10: 30,
        par_h1: 700,
        par_h2: 1000,
        par_h3: 0,
        par_h4: 45,
        par_h5: 20,
        par_h6: 120,
        par_h7: -100,
        par_g1: -30,
        par_g2: -5000,
        par_g3: 18,
        res_heat_range: 1,
        res_heat_val: 50,
        range_sw_err: 0,
    }
}

#[test]
fn test_gas_wait() {
    let encoded = calc_gas_wait_time(100);
    println!("{encoded}");
    assert_eq!(encoded, 90);
}

#[test]
fn gas_wait_encodings() {
    assert_eq!(calc_gas_wait_time(1), 2);
    assert_eq!(calc_gas_wait_time(62), 63);
    assert_eq!(calc_gas_wait_time(260), 128 + 17);
    assert_eq!(calc_gas_wait_time(1040), 192 + 17);
    assert_eq!(calc_gas_wait_time(4000), 192 + 63);
}

#[test]
fn temperature_datasheet_example() {
    // Calibration with every coefficient zero except the temperature
    // trim; the reference conversion of this raw code is 24.00 °C and
    // the integer pipeline must land within 0.01 °C of it.
    let mut cal = Calibration::default();
    cal.par_t1 = 27504;
    cal.par_t2 = 26435;
    cal.par_t3 = -1000;
    let t_fine = t_fine_from_adc(&cal, 519888, 0);
    assert_eq!(t_fine, 122859);
    let t_cdeg = temperature_from_t_fine(t_fine);
    assert_eq!(t_cdeg, 2400);
}

#[test]
fn temperature_typical() {
    let cal = typical_calibration();
    let t_fine = t_fine_from_adc(&cal, 524288, 0);
    assert_eq!(t_fine, 168905);
    assert_eq!(temperature_from_t_fine(t_fine), 3299);
}

#[test]
fn pressure_typical() {
    let cal = typical_calibration();
    let t_fine = t_fine_from_adc(&cal, 524288, 0);
    assert_eq!(pressure_from_adc(&cal, 415000, t_fine, 0), 89711);
}

#[test]
fn pressure_degenerate_calibration_is_zero() {
    // All-zero pressure trim collapses the divisor; the formula must
    // yield 0 instead of dividing by it.
    let cal = Calibration::default();
    let t_fine = t_fine_from_adc(&cal, 524288, 0);
    assert_eq!(pressure_from_adc(&cal, 415000, t_fine, 0), 0);
}

#[test]
fn humidity_typical() {
    let cal = typical_calibration();
    let t_fine = t_fine_from_adc(&cal, 524288, 0);
    assert_eq!(humidity_from_adc(&cal, 25000, t_fine), 78157);
}

#[test]
fn humidity_clamped_high() {
    let cal = typical_calibration();
    let t_fine = t_fine_from_adc(&cal, 524288, 0);
    assert_eq!(humidity_from_adc(&cal, 65535, t_fine), 100000);
}

#[test]
fn humidity_clamped_low() {
    let cal = typical_calibration();
    let t_fine = t_fine_from_adc(&cal, 524288, 0);
    assert_eq!(humidity_from_adc(&cal, 0, t_fine), 0);
}

#[test]
fn gas_resistance_goldens() {
    assert_eq!(gas_res_from_adc(500, 4, 0), 504014);
    assert_eq!(gas_res_from_adc(1023, 0, -8), 5742684);
    assert_eq!(gas_res_from_adc(0, 15, 7), 389);
}

#[test]
fn compensation_is_deterministic() {
    let cal = typical_calibration();
    let raw = RawReading {
        temp_adc: 524288,
        press_adc: 415000,
        hum_adc: 25000,
        gas_adc: 500,
        gas_range: 4,
        gas_valid: true,
    };
    let off = Offsets::default();
    let a: Measurements = compensate(&cal, &raw, &off, 7);
    let b: Measurements = compensate(&cal, &raw, &off, 7);
    assert_eq!(a.temperature_cdeg, b.temperature_cdeg);
    assert_eq!(a.pressure_pa, b.pressure_pa);
    assert_eq!(a.humidity_milli, b.humidity_milli);
    assert_eq!(a.gas_res_ohm, b.gas_res_ohm);
}

#[test]
fn compensate_applies_offsets() {
    let cal = typical_calibration();
    let raw = RawReading {
        temp_adc: 524288,
        press_adc: 415000,
        hum_adc: 25000,
        gas_adc: 500,
        gas_range: 4,
        gas_valid: true,
    };
    let m = compensate(&cal, &raw, &Offsets::default(), 42);
    assert_eq!(m.timestamp, 42);
    assert_eq!(m.temperature_cdeg, 3250);
    assert_eq!(m.pressure_pa, 89669);
    assert_eq!(m.humidity_milli, 84071);
    assert_eq!(m.gas_res_ohm, Some(504014));
}

#[test]
fn gas_absent_when_invalid() {
    let cal = typical_calibration();
    for gas_adc in [0u16, 500, 1023] {
        for gas_range in [0u8, 4, 15] {
            let raw = RawReading {
                temp_adc: 524288,
                press_adc: 415000,
                hum_adc: 25000,
                gas_adc,
                gas_range,
                gas_valid: false,
            };
            let m = compensate(&cal, &raw, &Offsets::default(), 0);
            assert!(m.gas_res_ohm.is_none());
        }
    }
}

#[test]
fn res_heat_goldens() {
    let cal = typical_calibration();
    assert_eq!(calc_glas_res_heat(300, 20, &cal), 111);
    assert_eq!(calc_glas_res_heat(300, 20, &Calibration::default()), 199);
    let mut hot = Calibration::default();
    hot.par_g1 = 127;
    hot.par_g2 = 32767;
    hot.par_g3 = 127;
    hot.res_heat_range = 3;
    hot.res_heat_val = 127;
    assert_eq!(calc_glas_res_heat(65535, 100, &hot), 255);
}

#[test]
fn calibration_decoding() {
    let mut regs = CalibRegs {
        r8a: 0,
        r8b: 0,
        r8c: 0,
        r8e: 0,
        r8f: 0,
        r90: 0,
        r91: 0,
        r92: 0,
        r94: 0,
        r95: 0,
        r96: 0,
        r97: 0,
        r98: 0,
        r99: 0,
        r9c: 0,
        r9d: 0,
        r9e: 0,
        r9f: 0,
        ra0: 0,
        re1: 0,
        re2: 0,
        re3: 0,
        re4: 0,
        re5: 0,
        re6: 0,
        re7: 0,
        re8: 0,
        re9: 0,
        rea: 0,
        reb: 0,
        rec: 0,
        red: 0,
        ree: 0,
        r00: 0,
        r02: 0,
        r04: 0,
    };
    regs.re9 = 0x70;
    regs.rea = 0x6B;
    regs.r8a = 0x43;
    regs.r8b = 0x67;
    regs.r8c = 0xFD;
    regs.re2 = 0xA5;
    regs.re3 = 0x2B;
    regs.re1 = 0x3E;
    regs.r02 = 0x30;
    regs.r04 = 0xF0;
    regs.r00 = 0x2D;
    let cal = Calibration::from_registers(&regs);
    // 0x6B70 = 27504, little endian pair
    assert_eq!(cal.par_t1, 27504);
    assert_eq!(cal.par_t2, 0x6743);
    assert_eq!(cal.par_t3, -3);
    // par_h1 is the 12-bit value 0xE3|0xE2<7:4>: (0x2B, 0xA5) -> 0x2BA5 >> 4
    assert_eq!(cal.par_h1, 0x2BA);
    // par_h2 is 0xE1|0xE2 big endian, shifted: 0x3EA5 >> 4
    assert_eq!(cal.par_h2, 0x3EA);
    // bits 4..=5 of 0x02
    assert_eq!(cal.res_heat_range, 3);
    // signed upper nibble of 0x04: 0xF0 as i8 is -16, >> 4 is -1
    assert_eq!(cal.range_sw_err, -1);
    assert_eq!(cal.res_heat_val, 0x2D);
}

#[test]
fn humidity_report_clamped_after_offset() {
    // A saturating raw code would exceed 100 % once the +6 % shipping
    // offset is added; the reported value is clamped to exactly 100 %.
    let cal = typical_calibration();
    let raw = RawReading {
        temp_adc: 524288,
        press_adc: 415000,
        hum_adc: 65535,
        gas_adc: 0,
        gas_range: 0,
        gas_valid: false,
    };
    let m = compensate(&cal, &raw, &Offsets::default(), 0);
    assert_eq!(m.humidity_milli, 100000);
    // A negative offset on a bone-dry code clamps at zero.
    let dry = RawReading { hum_adc: 0, ..raw };
    let off = Offsets { temp_cdeg: 0, press_pa: 0, hum_milli: -5000 };
    let m = compensate(&cal, &dry, &off, 0);
    assert_eq!(m.humidity_milli, 0);
}
