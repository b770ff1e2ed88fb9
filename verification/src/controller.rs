//! Duty-cycle controller decisions.
//!
//! One control-loop iteration asks the fusion algorithm what to do at the
//! current timestamp, drives the sensor accordingly, and feeds the
//! resulting physical readings back. The hardware waits, bus transfers
//! and fusion calls happen outside this crate; this module holds every
//! decision of the cycle: decoding the fusion guidance into a
//! [`FusionAction`], the bounded busy-poll budget, and the selection of
//! the channel batch to feed back — all samples of one timestamp in a
//! single batch, never split across calls.

use vstd::prelude::*;

use crate::bsec::{spec_sensor_id, PhysicalSensor, Sensor};
use crate::comp::Measurements;
use crate::driver::{spec_oversampling_from_bits, Config, IIRFilterSize, Oversampling};
use crate::CoreError;

verus! {

/// Feed-back flag of the pressure channel.
pub const PROCESS_PRESSURE: u32 = 1;

/// Feed-back flag of the humidity channel.
pub const PROCESS_HUMIDITY: u32 = 2;

/// Feed-back flag of the temperature channel.
pub const PROCESS_TEMPERATURE: u32 = 4;

/// Feed-back flag of the gas-resistance channel.
pub const PROCESS_GAS: u32 = 8;

/// Whether the pressure flag is set in a feed-back mask.
pub open spec fn spec_wants_pressure(mask: u32) -> bool {
    mask as int % 2 == 1
}

/// Whether the humidity flag is set in a feed-back mask.
pub open spec fn spec_wants_humidity(mask: u32) -> bool {
    mask as int / 2 % 2 == 1
}

/// Whether the temperature flag is set in a feed-back mask.
pub open spec fn spec_wants_temperature(mask: u32) -> bool {
    mask as int / 4 % 2 == 1
}

/// Whether the gas flag is set in a feed-back mask.
pub open spec fn spec_wants_gas(mask: u32) -> bool {
    mask as int / 8 % 2 == 1
}

/// The fusion guidance for one cycle, as the interface reports it:
/// plain integers straight out of its settings record.
#[derive(Debug, Clone, Copy, PartialEq, Eq, Structural)]
pub struct RawFusionSettings {
    /// Timestamp of the next required call, in ns.
    pub next_call_ns: i64,
    /// Bitmask of physical channels to feed back.
    pub process_data: u32,
    /// Heater target temperature in °C.
    pub heater_temperature: u16,
    /// Heater pulse duration in ms.
    pub heater_duration: u16,
    /// 1 when the gas conversion must run.
    pub run_gas: u8,
    pub pressure_oversampling: u8,
    pub temperature_oversampling: u8,
    pub humidity_oversampling: u8,
    /// 1 when a new conversion must be triggered.
    pub trigger_measurement: u8,
}

/// One decoded fusion action: what to apply to the sensor, which
/// channels to feed back, and when the next cycle is due.
#[derive(Debug, Clone, Copy, PartialEq, Eq, Structural)]
pub struct FusionAction {
    pub trigger_measurement: bool,
    pub process_data: u32,
    pub heater_temperature: u16,
    pub heater_duration_ms: u16,
    pub run_gas: bool,
    pub t_oversampling: Oversampling,
    pub p_oversampling: Oversampling,
    pub h_oversampling: Oversampling,
    /// Timestamp of the next required action, in ns.
    pub next_call_ns: u64,
}

/// Whether all three oversampling fields of a raw settings record
/// decode to known classes.
pub open spec fn spec_settings_decodable(r: RawFusionSettings) -> bool {
    &&& spec_oversampling_from_bits(r.temperature_oversampling) is Some
    &&& spec_oversampling_from_bits(r.pressure_oversampling) is Some
    &&& spec_oversampling_from_bits(r.humidity_oversampling) is Some
}

impl FusionAction {
    /// Decodes a raw settings record. Succeeds exactly when every
    /// oversampling field carries a known class; anything else is a
    /// malformed record and is rejected.
    pub fn from_raw(r: &RawFusionSettings) -> (a: Result<FusionAction, CoreError>)
        ensures
            a is Ok <==> spec_settings_decodable(*r),
            a matches Ok(action) ==> {
                &&& action.trigger_measurement == (r.trigger_measurement == 1)
                &&& action.process_data == r.process_data
                &&& action.heater_temperature == r.heater_temperature
                &&& action.heater_duration_ms == r.heater_duration
                &&& action.run_gas == (r.run_gas == 1)
                &&& Some(action.t_oversampling) == spec_oversampling_from_bits(
                    r.temperature_oversampling,
                )
                &&& Some(action.p_oversampling) == spec_oversampling_from_bits(
                    r.pressure_oversampling,
                )
                &&& Some(action.h_oversampling) == spec_oversampling_from_bits(
                    r.humidity_oversampling,
                )
                &&& action.next_call_ns == r.next_call_ns as u64
            },
            a is Err ==> a == Result::<FusionAction, CoreError>::Err(CoreError::InvalidValue),
    {
        let t_os = Oversampling::from_bits(r.temperature_oversampling);
        let p_os = Oversampling::from_bits(r.pressure_oversampling);
        let h_os = Oversampling::from_bits(r.humidity_oversampling);
        match (t_os, p_os, h_os) {
            (Some(t), Some(p), Some(h)) => Ok(
                FusionAction {
                    trigger_measurement: r.trigger_measurement == 1,
                    process_data: r.process_data,
                    heater_temperature: r.heater_temperature,
                    heater_duration_ms: r.heater_duration,
                    run_gas: r.run_gas == 1,
                    t_oversampling: t,
                    p_oversampling: p,
                    h_oversampling: h,
                    next_call_ns: r.next_call_ns as u64,
                },
            ),
            _ => Err(CoreError::InvalidValue),
        }
    }

    /// The sensor configuration this action asks for: its oversampling
    /// and heater settings on profile slot 0 with the filter off.
    pub fn to_config(&self) -> (c: Config)
        ensures
            c == (Config {
                t_oversampling: self.t_oversampling,
                p_oversampling: self.p_oversampling,
                h_oversampling: self.h_oversampling,
                iir_filter: IIRFilterSize::Fc0,
                gas_heater_temp: self.heater_temperature,
                gas_heater_duration_ms: self.heater_duration_ms,
                gas_enabled: self.run_gas,
                gas_profile: 0u8,
            }),
    {
        Config {
            t_oversampling: self.t_oversampling,
            p_oversampling: self.p_oversampling,
            h_oversampling: self.h_oversampling,
            iir_filter: IIRFilterSize::Fc0,
            gas_heater_temp: self.heater_temperature,
            gas_heater_duration_ms: self.heater_duration_ms,
            gas_enabled: self.run_gas,
            gas_profile: 0,
        }
    }
}

/// Number of completion polls one cycle may spend before the sensor
/// counts as stuck.
pub const POLL_RETRY_BUDGET: u8 = 3;

/// What the control loop must do after one completion poll.
#[derive(Debug, Clone, Copy, PartialEq, Eq, Structural)]
pub enum PollOutcome {
    /// The conversion finished: read the data registers now.
    ReadNow,
    /// Still busy: wait the heater duration once more, then poll again.
    RetryWait,
    /// Still busy and the budget is spent: give up on this cycle with a
    /// recoverable `SensorBusy` failure.
    Failed,
}

/// The bounded completion-poll budget of one cycle.
#[derive(Debug, Clone, Copy, PartialEq, Eq, Structural)]
pub struct PollBudget {
    /// Polls still allowed, counting down from [`POLL_RETRY_BUDGET`].
    pub polls_left: u8,
}

impl PollBudget {
    /// A fresh budget of [`POLL_RETRY_BUDGET`] polls.
    pub fn new() -> (b: PollBudget)
        ensures
            b.polls_left == POLL_RETRY_BUDGET,
    {
        PollBudget { polls_left: POLL_RETRY_BUDGET }
    }

    /// Accounts one completion poll: an idle sensor means the data can
    /// be read; a busy sensor consumes one attempt, and spending the
    /// last attempt fails the cycle (recoverably).
    pub fn on_poll(&mut self, busy: bool) -> (r: PollOutcome)
        requires
            old(self).polls_left > 0,
        ensures
            !busy ==> r == PollOutcome::ReadNow && *final(self) == *old(self),
            busy ==> final(self).polls_left == old(self).polls_left - 1,
            busy && old(self).polls_left > 1 ==> r == PollOutcome::RetryWait,
            busy && old(self).polls_left == 1 ==> r == PollOutcome::Failed,
    {
        if !busy {
            PollOutcome::ReadNow
        } else {
            self.polls_left = self.polls_left - 1;
            if self.polls_left == 0 {
                PollOutcome::Failed
            } else {
                PollOutcome::RetryWait
            }
        }
    }
}

/// Where a duty-cycle iteration stands. The chip's internal state
/// machine enforces a strict order — configure, trigger, wait out the
/// heater duration, poll, read, feed — and the phases make that order a
/// precondition of every step.
#[derive(Debug, Clone, Copy, PartialEq, Eq, Structural)]
pub enum CyclePhase {
    /// Configuration applied (and the conversion triggered where the
    /// action asked for one); waiting out the heater duration between
    /// completion polls.
    Waiting,
    /// The conversion completed: the data registers may be read.
    ReadReady,
    /// The reading was taken and its feed-back batch handed out; the
    /// fusion step's outputs are pending.
    AwaitingOutputs,
    /// The iteration ended — outputs classified, or the poll budget
    /// spent on a busy sensor.
    Finished,
}

/// One duty-cycle iteration as a session: created from the decoded
/// fusion guidance, stepped through its phases in the fixed order.
#[derive(Debug)]
pub struct Cycle {
    action: FusionAction,
    budget: PollBudget,
    phase: CyclePhase,
}

impl Cycle {
    /// The guidance driving this iteration.
    pub closed spec fn spec_action(&self) -> FusionAction {
        self.action
    }

    /// The phase this iteration is in.
    pub closed spec fn spec_phase(&self) -> CyclePhase {
        self.phase
    }

    /// Completion polls still allowed.
    pub closed spec fn spec_polls_left(&self) -> int {
        self.budget.polls_left as int
    }

    /// Starts one iteration from decoded guidance. The caller has
    /// already applied `action.to_config()` and triggered the
    /// conversion where `action.trigger_measurement` asks for one, and
    /// waits `heater_duration_ms` before each poll.
    pub fn begin(action: FusionAction) -> (c: Cycle)
        ensures
            c.spec_action() == action,
            c.spec_phase() == CyclePhase::Waiting,
            c.spec_polls_left() == POLL_RETRY_BUDGET,
    {
        Cycle { action, budget: PollBudget::new(), phase: CyclePhase::Waiting }
    }

    /// Accounts one completion poll: an idle sensor opens the read
    /// phase; a busy one costs an attempt, and spending the last
    /// attempt finishes the iteration with the recoverable busy
    /// failure.
    pub fn on_poll(&mut self, busy: bool) -> (r: PollOutcome)
        requires
            old(self).spec_phase() == CyclePhase::Waiting,
            old(self).spec_polls_left() > 0,
        ensures
            final(self).spec_action() == old(self).spec_action(),
            !busy ==> {
                &&& r == PollOutcome::ReadNow
                &&& final(self).spec_phase() == CyclePhase::ReadReady
                &&& final(self).spec_polls_left() == old(self).spec_polls_left()
            },
            busy ==> final(self).spec_polls_left() == old(self).spec_polls_left() - 1,
            busy && old(self).spec_polls_left() > 1 ==> {
                &&& r == PollOutcome::RetryWait
                &&& final(self).spec_phase() == CyclePhase::Waiting
            },
            busy && old(self).spec_polls_left() == 1 ==> {
                &&& r == PollOutcome::Failed
                &&& final(self).spec_phase() == CyclePhase::Finished
            },
    {
        let r = self.budget.on_poll(busy);
        match r {
            PollOutcome::ReadNow => self.phase = CyclePhase::ReadReady,
            PollOutcome::Failed => self.phase = CyclePhase::Finished,
            PollOutcome::RetryWait => (),
        }
        r
    }

    /// Takes the compensated reading of this iteration and hands out
    /// its feed-back batch: the channels the guidance asked for,
    /// intersected with the channels that produced a value, all under
    /// one timestamp.
    pub fn on_reading(&mut self, m: &Measurements, ts_ns: u64) -> (inputs: Vec<Input>)
        requires
            old(self).spec_phase() == CyclePhase::ReadReady,
        ensures
            final(self).spec_action() == old(self).spec_action(),
            final(self).spec_phase() == CyclePhase::AwaitingOutputs,
            inputs@ == spec_selected_inputs(old(self).spec_action().process_data, *m, ts_ns),
            inputs@.len() <= 4,
    {
        self.phase = CyclePhase::AwaitingOutputs;
        select_inputs(self.action.process_data, m, ts_ns)
    }

    /// Closes the iteration once the fed batch came back classified,
    /// yielding the timestamp of the next required action.
    pub fn finish(&mut self) -> (next_call_ns: u64)
        requires
            old(self).spec_phase() == CyclePhase::AwaitingOutputs,
        ensures
            final(self).spec_action() == old(self).spec_action(),
            final(self).spec_phase() == CyclePhase::Finished,
            next_call_ns == old(self).spec_action().next_call_ns,
    {
        self.phase = CyclePhase::Finished;
        self.action.next_call_ns
    }
}

/// One physical sample handed to the fusion algorithm. The signal is a
/// scaled integer: its value is `signal_scaled / signal_scale_div` in
/// the channel's interface unit (°C, Pa, percent or ohm).
#[derive(Debug, Clone, Copy, PartialEq, Eq, Structural)]
pub struct Input {
    pub time_stamp_ns: u64,
    pub sensor_id: u8,
    pub signal_scaled: i64,
    pub signal_scale_div: u32,
}

impl Input {
    /// Builds one sample record for the given sensor.
    pub fn new(ts_ns: u64, sensor: Sensor, signal_scaled: i64, signal_scale_div: u32) -> (i: Input)
        ensures
            i.time_stamp_ns == ts_ns,
            i.sensor_id == spec_sensor_id(sensor),
            i.signal_scaled == signal_scaled,
            i.signal_scale_div == signal_scale_div,
    {
        Input { time_stamp_ns: ts_ns, sensor_id: sensor.raw_id(), signal_scaled, signal_scale_div }
    }
}

/// The feed-back batch of one reading: for each channel whose flag is
/// set — and, for gas, whose reading is valid — one sample, in the
/// fixed order gas, humidity, pressure, temperature.
pub open spec fn spec_selected_inputs(mask: u32, m: Measurements, ts_ns: u64) -> Seq<Input> {
    let gas = if spec_wants_gas(mask) && m.gas_res_ohm is Some {
        seq![
            Input {
                time_stamp_ns: ts_ns,
                sensor_id: 4u8,
                signal_scaled: m.gas_res_ohm->Some_0 as i64,
                signal_scale_div: 1u32,
            },
        ]
    } else {
        Seq::empty()
    };
    let hum = if spec_wants_humidity(mask) {
        seq![
            Input {
                time_stamp_ns: ts_ns,
                sensor_id: 2u8,
                signal_scaled: m.humidity_milli as i64,
                signal_scale_div: 1000u32,
            },
        ]
    } else {
        Seq::empty()
    };
    let press = if spec_wants_pressure(mask) {
        seq![
            Input {
                time_stamp_ns: ts_ns,
                sensor_id: 1u8,
                signal_scaled: m.pressure_pa,
                signal_scale_div: 1u32,
            },
        ]
    } else {
        Seq::empty()
    };
    let temp = if spec_wants_temperature(mask) {
        seq![
            Input {
                time_stamp_ns: ts_ns,
                sensor_id: 3u8,
                signal_scaled: m.temperature_cdeg as i64,
                signal_scale_div: 100u32,
            },
        ]
    } else {
        Seq::empty()
    };
    gas + hum + press + temp
}

/// Builds the feed-back batch of one reading: the requested channels
/// intersected with the channels that produced a value, all under the
/// reading's single timestamp.
pub fn select_inputs(mask: u32, m: &Measurements, ts_ns: u64) -> (inputs: Vec<Input>)
    ensures
        inputs@ == spec_selected_inputs(mask, *m, ts_ns),
        inputs@.len() <= 4,
{
    let mut inputs: Vec<Input> = Vec::new();
    if (mask / 8) % 2 == 1 {
        if let Some(gas) = m.gas_res_ohm {
            inputs.push(
                Input::new(ts_ns, Sensor::Phyical(PhysicalSensor::Gasresistor), gas as i64, 1),
            );
        }
    }
    if (mask / 2) % 2 == 1 {
        inputs.push(
            Input::new(
                ts_ns,
                Sensor::Phyical(PhysicalSensor::Humidity),
                m.humidity_milli as i64,
                1000,
            ),
        );
    }
    if mask % 2 == 1 {
        inputs.push(
            Input::new(ts_ns, Sensor::Phyical(PhysicalSensor::Pressure), m.pressure_pa, 1),
        );
    }
    if (mask / 4) % 2 == 1 {
        inputs.push(
            Input::new(
                ts_ns,
                Sensor::Phyical(PhysicalSensor::Temperature),
                m.temperature_cdeg as i64,
                100,
            ),
        );
    }
    proof {
        assert(inputs@ =~= spec_selected_inputs(mask, *m, ts_ns));
    }
    inputs
}

} // verus!
