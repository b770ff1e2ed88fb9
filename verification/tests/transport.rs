use sensor_node::packet::{DeviceInfo, Header, Measurement, Packet, Payload};
use sensor_node::queue::PacketQueue;
use sensor_node::regs::{
    adc10, adc16, adc20, chip_id_matches, pack_ctrl_gas_1, pack_ctrl_hum, pack_ctrl_meas,
    pack_ctrl_meas_forced, status_measuring, RegisterWrite, CHIP_ID, REG_CTRL_HUM,
    REG_CTRL_MEAS, REG_GAS_WAIT_0, REG_RES_HEAT_0, REG_CTRL_GAS_1,
};
use sensor_node::calib::Calibration;
use sensor_node::driver::{setup_writes, Config, Oversampling};
use sensor_node::req::{MeasurementMask, MeasurementType};
use sensor_node::utils::device_id;

fn measurement_packet(device: u32, ts: u64) -> Packet {
    Packet {
        header: Header::new(device, ts),
        payload: Payload::Measurement(Measurement {
            temperature: Some(0x41F00000),
            pressure: None,
            humidity: None,
            air_quality: None,
            bat_voltage: None,
            bat_capacity: None,
        }),
    }
}

#[test]
fn header_new_fields() {
    let h = Header::new(7, 99);
    assert_eq!(h.magic, "BRST");
    assert_eq!(h.device_id, 7);
    assert_eq!(h.timestamp, 99);
    assert_eq!(h.rel_timestamp, 0);
}

#[test]
fn queue_overflow_clears() {
    // 41 enqueues on a 40-capacity queue: the 41st clears everything.
    let mut q = PacketQueue::new();
    for i in 0..40u64 {
        q.enqueue(measurement_packet(1, i));
    }
    assert_eq!(q.len(), 40);
    q.enqueue(measurement_packet(1, 40));
    assert_eq!(q.len(), 0);
}

#[test]
fn queue_take_rewrites_relative_timestamps() {
    let mut q = PacketQueue::new();
    q.enqueue(measurement_packet(1, 500));
    q.enqueue(measurement_packet(1, 300));
    q.enqueue(measurement_packet(1, 450));
    let batch = q.take_for_broadcast();
    assert_eq!(q.len(), 0);
    assert_eq!(batch.len(), 3);
    // Rewritten relative to the newest entry (450), saturating at zero.
    assert_eq!(batch[0].header.timestamp, 50);
    assert_eq!(batch[1].header.timestamp, 0);
    assert_eq!(batch[2].header.timestamp, 0);
    assert_eq!(batch[0].header.magic, "BRST");
    assert_eq!(batch[0].header.device_id, 1);
    assert!(matches!(batch[0].payload, Payload::Measurement(_)));
}

#[test]
fn queue_take_empty_is_empty() {
    let mut q = PacketQueue::new();
    let batch = q.take_for_broadcast();
    assert!(batch.is_empty());
    assert_eq!(q.len(), 0);
}

#[test]
fn device_info_packet_round_trip() {
    let info = DeviceInfo {
        uptime: 3600,
        report_interval: 900,
        sample_interval: 300,
        firmware_version: [1, 2, 3, 0],
        bsec_version: [2, 4, 0, 0],
        model: *b"M1S1\0\0\0\0\0\0\0\0\0\0\0\0",
        wifi_ssid: None,
    };
    let mut q = PacketQueue::new();
    q.enqueue(Packet { header: Header::new(9, 10), payload: Payload::DeviceInfo(info) });
    let batch = q.take_for_broadcast();
    match &batch[0].payload {
        Payload::DeviceInfo(d) => {
            assert_eq!(d.uptime, 3600);
            assert_eq!(d.model[0], b'M');
            assert!(d.wifi_ssid.is_none());
        },
        _ => panic!("expected a device-info payload"),
    }
}

#[test]
fn device_id_folds_mac() {
    assert_eq!(device_id(&[1, 2, 3, 4, 5, 6]), 0x04030201u32 ^ 0x0605);
    assert_eq!(device_id(&[0, 0, 0, 0, 0, 0]), 0);
}

#[test]
fn measurement_mask_operations() {
    let mut m = MeasurementMask::default();
    assert!(m.is_set(MeasurementType::Temperature));
    assert!(!m.is_set(MeasurementType::Humidity));
    m.set(MeasurementType::AirQuality, true);
    assert!(m.is_set(MeasurementType::AirQuality));
    m.set(MeasurementType::Temperature, false);
    assert!(!m.is_set(MeasurementType::Temperature));
    assert!(m.is_set(MeasurementType::AirQuality));
    let all = MeasurementMask::all();
    assert!(all.is_set(MeasurementType::BatVoltage));
    assert!(all.is_set(MeasurementType::BatCapacity));
    assert!(all.is_set(MeasurementType::Pressure));
}

#[test]
fn control_register_packing() {
    assert_eq!(pack_ctrl_meas(2, 3, 0), 2 * 32 + 3 * 4);
    // Forcing a conversion keeps both oversampling fields.
    let v = pack_ctrl_meas(2, 3, 0);
    assert_eq!(pack_ctrl_meas_forced(v), v + 1);
    // Humidity oversampling keeps the reserved upper bits.
    assert_eq!(pack_ctrl_hum(0b1010_1000, 5), 0b1010_1101);
    // Gas control keeps the upper bits, sets run_gas and the profile.
    assert_eq!(pack_ctrl_gas_1(0b1110_0000, 3, true), 0b1111_0011);
    assert_eq!(pack_ctrl_gas_1(0b1110_0000, 3, false), 0b1110_0011);
}

#[test]
fn status_and_id_decoding() {
    assert!(status_measuring(0b0010_0000));
    assert!(!status_measuring(0b1101_1111));
    assert!(chip_id_matches(CHIP_ID));
    assert!(!chip_id_matches(0x60));
}

#[test]
fn adc_assembly() {
    // msb|lsb|xlsb<7:4> of 0x12, 0x34, 0x5F is 0x12345.
    assert_eq!(adc20(0x12, 0x34, 0x5F), 0x12345);
    assert_eq!(adc16(0xAB, 0xCD), 0xABCD);
    // msb|lsb<7:6> of 0xFF, 0xC0 is the full 10-bit range.
    assert_eq!(adc10(0xFF, 0xC0), 1023);
    assert_eq!(adc10(0x80, 0x40), 0x201);
}

#[test]
fn setup_write_sequence() {
    let cal = Calibration::default();
    let cfg = Config::default();
    let w: Vec<RegisterWrite> = setup_writes(&cal, &cfg, 0, 0b1111_1000, 0b1110_0000);
    assert_eq!(w.len(), 5);
    assert_eq!(w[0].reg, REG_CTRL_HUM);
    assert_eq!(w[0].value, 0b1111_1010); // upper bits kept, osrs_h = x2
    assert_eq!(w[1].reg, REG_CTRL_MEAS);
    assert_eq!(w[1].value, 2 * 32 + 3 * 4); // t x2, p x4, mode sleep
    assert_eq!(w[2].reg, REG_GAS_WAIT_0);
    assert_eq!(w[2].value, 90); // 100 ms heater wait
    assert_eq!(w[3].reg, REG_RES_HEAT_0);
    assert_eq!(w[3].value, 199); // 300 °C target on zero trim
    assert_eq!(w[4].reg, REG_CTRL_GAS_1);
    assert_eq!(w[4].value, 0b1111_0000); // upper bits kept, run_gas, profile 0
}

#[test]
fn oversampling_bits_round_trip() {
    for os in [
        Oversampling::Skip,
        Oversampling::X1,
        Oversampling::X2,
        Oversampling::X4,
        Oversampling::X8,
        Oversampling::X16,
    ] {
        assert_eq!(Oversampling::from_bits(os.bits()), Some(os));
    }
    assert_eq!(Oversampling::from_bits(6), None);
    assert_eq!(Oversampling::from_bits(7), None);
}

#[test]
fn to_array_pads_with_zeroes() {
    let a: [u8; 16] = sensor_node::utils::to_array(b"M1S1");
    assert_eq!(&a[..4], b"M1S1");
    assert!(a[4..].iter().all(|&b| b == 0));
    let full: [u8; 4] = sensor_node::utils::to_array(b"ABCD");
    assert_eq!(&full, b"ABCD");
    let empty: [u8; 4] = sensor_node::utils::to_array(b"");
    assert_eq!(empty, [0u8; 4]);
}
