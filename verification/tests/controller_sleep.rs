use sensor_node::bsec::{
    Accuracy, Output, Outputs, PhysicalSensor, RawOutput, RawSensorConfiguration, SampleRate,
    Sensor, SensorConfiguration, VirtualSensor, VirtualSensorConfiguration, classify_outputs,
};
use sensor_node::comp::Measurements;
use sensor_node::controller::{
    Cycle, FusionAction, Input, PollBudget, PollOutcome, RawFusionSettings, select_inputs,
    PROCESS_GAS, PROCESS_HUMIDITY, PROCESS_PRESSURE, PROCESS_TEMPERATURE,
};
use sensor_node::driver::Oversampling;
use sensor_node::sleep::LightSleep;
use sensor_node::CoreError;

fn settings() -> RawFusionSettings {
    RawFusionSettings {
        next_call_ns: 3_000_000_000,
        process_data: PROCESS_GAS | PROCESS_HUMIDITY | PROCESS_PRESSURE | PROCESS_TEMPERATURE,
        heater_temperature: 300,
        heater_duration: 100,
        run_gas: 1,
        pressure_oversampling: 3,
        temperature_oversampling: 2,
        humidity_oversampling: 2,
        trigger_measurement: 1,
    }
}

fn reading() -> Measurements {
    Measurements {
        timestamp: 9,
        temperature_cdeg: 3250,
        pressure_pa: 89669,
        humidity_milli: 84071,
        gas_res_ohm: Some(504014),
    }
}

#[test]
fn fusion_action_decodes() {
    let a = FusionAction::from_raw(&settings()).unwrap();
    assert!(a.trigger_measurement);
    assert!(a.run_gas);
    assert_eq!(a.heater_duration_ms, 100);
    assert_eq!(a.heater_temperature, 300);
    assert_eq!(a.next_call_ns, 3_000_000_000);
    assert!(matches!(a.t_oversampling, Oversampling::X2));
    assert!(matches!(a.p_oversampling, Oversampling::X4));
    assert!(matches!(a.h_oversampling, Oversampling::X2));
    let cfg = a.to_config();
    assert_eq!(cfg.gas_heater_temp, 300);
    assert_eq!(cfg.gas_profile, 0);
    assert!(cfg.gas_enabled);
}

#[test]
fn fusion_action_rejects_unknown_oversampling() {
    let mut bad = settings();
    bad.pressure_oversampling = 7;
    assert_eq!(FusionAction::from_raw(&bad), Err(CoreError::InvalidValue));
}

#[test]
fn busy_three_polls_is_recoverable_failure() {
    // Three consecutive busy polls must surface the recoverable
    // sensor-busy failure, not a crash, and leave the budget spent.
    let mut budget = PollBudget::new();
    assert_eq!(budget.on_poll(true), PollOutcome::RetryWait);
    assert_eq!(budget.on_poll(true), PollOutcome::RetryWait);
    assert_eq!(budget.on_poll(true), PollOutcome::Failed);
    assert_eq!(budget.polls_left, 0);
}

#[test]
fn idle_poll_reads_immediately() {
    let mut budget = PollBudget::new();
    assert_eq!(budget.on_poll(false), PollOutcome::ReadNow);
    assert_eq!(budget.polls_left, 3);
}

#[test]
fn select_inputs_full_mask() {
    let m = reading();
    let inputs = select_inputs(15, &m, 77);
    assert_eq!(inputs.len(), 4);
    // Fixed order: gas, humidity, pressure, temperature.
    assert_eq!(inputs[0].sensor_id, 4);
    assert_eq!(inputs[0].signal_scaled, 504014);
    assert_eq!(inputs[0].signal_scale_div, 1);
    assert_eq!(inputs[1].sensor_id, 2);
    assert_eq!(inputs[1].signal_scaled, 84071);
    assert_eq!(inputs[1].signal_scale_div, 1000);
    assert_eq!(inputs[2].sensor_id, 1);
    assert_eq!(inputs[2].signal_scaled, 89669);
    assert_eq!(inputs[3].sensor_id, 3);
    assert_eq!(inputs[3].signal_scaled, 3250);
    assert_eq!(inputs[3].signal_scale_div, 100);
    assert!(inputs.iter().all(|i| i.time_stamp_ns == 77));
}

#[test]
fn select_inputs_skips_absent_gas() {
    let mut m = reading();
    m.gas_res_ohm = None;
    let inputs = select_inputs(15, &m, 77);
    assert_eq!(inputs.len(), 3);
    assert_eq!(inputs[0].sensor_id, 2);
}

#[test]
fn select_inputs_honors_mask() {
    let m = reading();
    let inputs = select_inputs(PROCESS_TEMPERATURE, &m, 1);
    assert_eq!(inputs.len(), 1);
    assert_eq!(inputs[0].sensor_id, 3);
    let none = select_inputs(0, &m, 1);
    assert!(none.is_empty());
}

#[test]
fn input_new_maps_sensor_ids() {
    let i = Input::new(5, Sensor::Phyical(PhysicalSensor::Gasresistor), 10, 1);
    assert_eq!(i.sensor_id, 4);
    let j = Input::new(5, Sensor::Virtual(VirtualSensor::StaticIAQ), 10, 1);
    assert_eq!(j.sensor_id, 2);
}

fn raw_output(sensor_id: u8, signal_bits: u32, accuracy: u8) -> RawOutput {
    RawOutput { time_stamp: 1000, signal_bits, sensor_id, accuracy }
}

#[test]
fn classify_routes_by_kind() {
    let raw = vec![
        raw_output(2, 11, 3),  // static IAQ
        raw_output(9, 22, 0),  // raw gas
        raw_output(14, 33, 2), // heat-compensated temperature
        raw_output(99, 44, 1), // unknown kind: dropped silently
    ];
    let out: Outputs = classify_outputs(&raw);
    let static_iaq: Output = out.static_iaq.unwrap();
    assert_eq!(static_iaq.signal_bits, 11);
    assert!(matches!(static_iaq.accuracy, Accuracy::High));
    assert!(matches!(static_iaq.sensor, VirtualSensor::StaticIAQ));
    assert_eq!(static_iaq.timestamp, 1000);
    assert_eq!(out.raw_gas.unwrap().signal_bits, 22);
    assert!(matches!(out.raw_gas.unwrap().accuracy, Accuracy::Unreliable));
    assert_eq!(out.heat_compensated_temperature.unwrap().signal_bits, 33);
    assert!(out.iaq.is_none());
    assert!(out.co2.is_none());
    assert!(out.voc.is_none());
    assert!(out.gas_estimate4.is_none());
}

#[test]
fn classify_keeps_latest_of_duplicate_kind() {
    let raw = vec![raw_output(1, 5, 1), raw_output(1, 6, 2)];
    let out = classify_outputs(&raw);
    let iaq = out.iaq.unwrap();
    assert_eq!(iaq.signal_bits, 6);
    assert!(matches!(iaq.accuracy, Accuracy::Medium));
}

#[test]
fn sensor_configuration_decoding() {
    let phys = SensorConfiguration::from_raw_phys(
        &RawSensorConfiguration { sample_rate_bits: 7, sensor_id: 4 },
    );
    assert_eq!(phys.sample_rate_bits, 7);
    assert!(matches!(phys.sensor, Sensor::Phyical(PhysicalSensor::Gasresistor)));
    let unknown = SensorConfiguration::from_raw_phys(
        &RawSensorConfiguration { sample_rate_bits: 0, sensor_id: 200 },
    );
    assert!(matches!(unknown.sensor, Sensor::Phyical(PhysicalSensor::Unknown)));
}

#[test]
fn sample_rate_intervals() {
    assert_eq!(SampleRate::Ulp.sample_time_interval(), Some(300));
    assert_eq!(SampleRate::Lp.sample_time_interval(), Some(3));
    assert_eq!(SampleRate::Disabled.sample_time_interval(), None);
    assert_eq!(SampleRate::Cont.sample_time_interval(), None);
}

#[test]
fn inhibitor_counter_balance() {
    // N acquires interleaved with at most N releases: the counter is
    // the balance at every point and never goes negative.
    let mut s = LightSleep::new();
    assert_eq!(s.counter(), 0);
    let a = s.lock();
    let b = s.lock();
    assert_eq!(s.counter(), 2);
    assert_eq!(a.release(&mut s, 0), None);
    assert_eq!(s.counter(), 1);
    let c = s.lock();
    assert_eq!(s.counter(), 2);
    assert_eq!(b.release(&mut s, 0), None);
    assert_eq!(c.release(&mut s, 0), None);
    assert_eq!(s.counter(), 0);
}

#[test]
fn sleep_deferred_while_obligations_outstanding() {
    let mut s = LightSleep::new();
    let guard = s.lock();
    // Deadline known and in the future, but an obligation is open: no
    // sleep command.
    assert_eq!(s.sleep_until(10_000, 1_000), None);
    // Releasing the last obligation triggers the deferred sleep check.
    assert_eq!(guard.release(&mut s, 1_000), Some(9_000));
    assert_eq!(s.counter(), 0);
}

#[test]
fn release_with_past_deadline_is_immediate() {
    // Acquire then release with the deadline already in the past: the
    // scheduler must come back at once, without underflow or hang.
    let mut s = LightSleep::new();
    let guard = s.lock();
    assert_eq!(s.sleep_until(500, 2_000), None);
    assert_eq!(guard.release(&mut s, 2_000), None);
    // A deadline exactly now sleeps for zero: an immediate return.
    let mut t = LightSleep::new();
    assert_eq!(t.sleep_until(2_000, 2_000), Some(0));
}

#[test]
fn sleep_without_deadline_stays_awake() {
    let mut s = LightSleep::new();
    let guard = s.lock();
    assert_eq!(guard.release(&mut s, 123), None);
}

#[test]
fn subscription_ids_in_request_order() {
    let requested = vec![
        VirtualSensorConfiguration {
            sample_rate: SampleRate::Ulp,
            sensor: VirtualSensor::HeatCompensatedTemperature,
        },
        VirtualSensorConfiguration { sample_rate: SampleRate::Ulp, sensor: VirtualSensor::Voc },
        VirtualSensorConfiguration {
            sample_rate: SampleRate::Ulp,
            sensor: VirtualSensor::RawGas,
        },
    ];
    assert_eq!(sensor_node::bsec::subscription_ids(&requested), vec![14, 4, 9]);
}

#[test]
fn sensor_id_decoding_prefers_physical() {
    // 4 is both the gas-resistor channel and the VOC output; the
    // physical vocabulary wins, as the interface assigns ids.
    assert!(matches!(
        Sensor::from_raw(4),
        Some(Sensor::Phyical(PhysicalSensor::Gasresistor))
    ));
    assert!(matches!(Sensor::from_raw(15), Some(Sensor::Virtual(_))));
    assert!(Sensor::from_raw(200).is_none());
}

#[test]
fn accuracy_decoding_bounds() {
    assert!(matches!(Accuracy::from_raw(0), Some(Accuracy::Unreliable)));
    assert!(matches!(Accuracy::from_raw(3), Some(Accuracy::High)));
    assert!(Accuracy::from_raw(4).is_none());
}

#[test]
fn cycle_session_runs_in_order() {
    let action = FusionAction::from_raw(&settings()).unwrap();
    let mut cycle = Cycle::begin(action);
    assert_eq!(cycle.on_poll(true), PollOutcome::RetryWait);
    assert_eq!(cycle.on_poll(false), PollOutcome::ReadNow);
    let inputs = cycle.on_reading(&reading(), 77);
    assert_eq!(inputs.len(), 4);
    assert_eq!(cycle.finish(), 3_000_000_000);
}

#[test]
fn cycle_session_spends_poll_budget() {
    let action = FusionAction::from_raw(&settings()).unwrap();
    let mut cycle = Cycle::begin(action);
    assert_eq!(cycle.on_poll(true), PollOutcome::RetryWait);
    assert_eq!(cycle.on_poll(true), PollOutcome::RetryWait);
    assert_eq!(cycle.on_poll(true), PollOutcome::Failed);
}
