//! Types of the sensor-fusion interface.
//!
//! The fusion algorithm is an opaque vendor library reached over a
//! foreign-function boundary outside this crate. The glue hands its raw
//! records in as plain values (ids, raw IEEE-754 bit patterns,
//! accuracies); this module gives them their closed enumerations and
//! classifies the outputs of one step into a fixed-field record, dropping
//! unknown kinds silently.

use vstd::prelude::*;

verus! {

/// A physical hardware channel the fusion algorithm consumes.
#[derive(Debug, Clone, Copy, PartialEq, Eq, Structural)]
pub enum PhysicalSensor {
    /// in Pa
    Pressure,
    /// in percent
    Humidity,
    /// in °C
    Temperature,
    /// in ohm
    Gasresistor,
    /// an offset for any heating induced by other components
    HeatSource,
    /// 0 - Normal, 1 - Event1, 2 - Event2
    DisableBaselineTracker,
    /// state of the heater profile (1-9), gas index
    ProfilePart,
    Unknown,
}

/// Interface id of a physical channel.
pub open spec fn spec_physical_id(s: PhysicalSensor) -> int {
    match s {
        PhysicalSensor::Pressure => 1,
        PhysicalSensor::Humidity => 2,
        PhysicalSensor::Temperature => 3,
        PhysicalSensor::Gasresistor => 4,
        PhysicalSensor::HeatSource => 14,
        PhysicalSensor::DisableBaselineTracker => 23,
        PhysicalSensor::ProfilePart => 25,
        PhysicalSensor::Unknown => 26,
    }
}

/// The physical channel an interface id decodes to, if any.
pub open spec fn spec_physical_from_id(id: u32) -> Option<PhysicalSensor> {
    if id == 1 {
        Some(PhysicalSensor::Pressure)
    } else if id == 2 {
        Some(PhysicalSensor::Humidity)
    } else if id == 3 {
        Some(PhysicalSensor::Temperature)
    } else if id == 4 {
        Some(PhysicalSensor::Gasresistor)
    } else if id == 14 {
        Some(PhysicalSensor::HeatSource)
    } else if id == 23 {
        Some(PhysicalSensor::DisableBaselineTracker)
    } else if id == 25 {
        Some(PhysicalSensor::ProfilePart)
    } else if id == 26 {
        Some(PhysicalSensor::Unknown)
    } else {
        None
    }
}

impl PhysicalSensor {
    /// The interface id of this channel.
    pub fn raw_id(&self) -> (r: u8)
        ensures
            r == spec_physical_id(*self),
    {
        match self {
            PhysicalSensor::Pressure => 1,
            PhysicalSensor::Humidity => 2,
            PhysicalSensor::Temperature => 3,
            PhysicalSensor::Gasresistor => 4,
            PhysicalSensor::HeatSource => 14,
            PhysicalSensor::DisableBaselineTracker => 23,
            PhysicalSensor::ProfilePart => 25,
            PhysicalSensor::Unknown => 26,
        }
    }

    /// Decodes an interface id.
    pub fn from_raw(id: u32) -> (r: Option<PhysicalSensor>)
        ensures
            r == spec_physical_from_id(id),
    {
        if id == 1 {
            Some(PhysicalSensor::Pressure)
        } else if id == 2 {
            Some(PhysicalSensor::Humidity)
        } else if id == 3 {
            Some(PhysicalSensor::Temperature)
        } else if id == 4 {
            Some(PhysicalSensor::Gasresistor)
        } else if id == 14 {
            Some(PhysicalSensor::HeatSource)
        } else if id == 23 {
            Some(PhysicalSensor::DisableBaselineTracker)
        } else if id == 25 {
            Some(PhysicalSensor::ProfilePart)
        } else if id == 26 {
            Some(PhysicalSensor::Unknown)
        } else {
            None
        }
    }
}

/// A derived (fused) output kind.
#[derive(Debug, Clone, Copy, PartialEq, Eq, Structural)]
pub enum VirtualSensor {
    IAQ,
    StaticIAQ,
    Co2,
    Voc,
    RawPressure,
    RawHumidity,
    RawTemperature,
    RawGas,
    StabilizationStatus,
    RunInStatus,
    HeatCompensatedTemperature,
    HeatCompensatedHumidity,
    GasPercentage,
    GasEstimate1,
    GasEstimate2,
    GasEstimate3,
    GasEstimate4,
    RawGasIndex,
}

/// Interface id of a fused output kind.
pub open spec fn spec_virtual_id(s: VirtualSensor) -> int {
    match s {
        VirtualSensor::IAQ => 1,
        VirtualSensor::StaticIAQ => 2,
        VirtualSensor::Co2 => 3,
        VirtualSensor::Voc => 4,
        VirtualSensor::RawTemperature => 6,
        VirtualSensor::RawPressure => 7,
        VirtualSensor::RawHumidity => 8,
        VirtualSensor::RawGas => 9,
        VirtualSensor::StabilizationStatus => 12,
        VirtualSensor::RunInStatus => 13,
        VirtualSensor::HeatCompensatedTemperature => 14,
        VirtualSensor::HeatCompensatedHumidity => 15,
        VirtualSensor::GasPercentage => 21,
        VirtualSensor::GasEstimate1 => 22,
        VirtualSensor::GasEstimate2 => 23,
        VirtualSensor::GasEstimate3 => 24,
        VirtualSensor::GasEstimate4 => 25,
        VirtualSensor::RawGasIndex => 26,
    }
}

/// The fused output kind an interface id decodes to, if any.
pub open spec fn spec_virtual_from_id(id: u32) -> Option<VirtualSensor> {
    if id == 1 {
        Some(VirtualSensor::IAQ)
    } else if id == 2 {
        Some(VirtualSensor::StaticIAQ)
    } else if id == 3 {
        Some(VirtualSensor::Co2)
    } else if id == 4 {
        Some(VirtualSensor::Voc)
    } else if id == 6 {
        Some(VirtualSensor::RawTemperature)
    } else if id == 7 {
        Some(VirtualSensor::RawPressure)
    } else if id == 8 {
        Some(VirtualSensor::RawHumidity)
    } else if id == 9 {
        Some(VirtualSensor::RawGas)
    } else if id == 12 {
        Some(VirtualSensor::StabilizationStatus)
    } else if id == 13 {
        Some(VirtualSensor::RunInStatus)
    } else if id == 14 {
        Some(VirtualSensor::HeatCompensatedTemperature)
    } else if id == 15 {
        Some(VirtualSensor::HeatCompensatedHumidity)
    } else if id == 21 {
        Some(VirtualSensor::GasPercentage)
    } else if id == 22 {
        Some(VirtualSensor::GasEstimate1)
    } else if id == 23 {
        Some(VirtualSensor::GasEstimate2)
    } else if id == 24 {
        Some(VirtualSensor::GasEstimate3)
    } else if id == 25 {
        Some(VirtualSensor::GasEstimate4)
    } else if id == 26 {
        Some(VirtualSensor::RawGasIndex)
    } else {
        None
    }
}

impl VirtualSensor {
    /// The interface id of this output kind.
    pub fn raw_id(&self) -> (r: u8)
        ensures
            r == spec_virtual_id(*self),
    {
        match self {
            VirtualSensor::IAQ => 1,
            VirtualSensor::StaticIAQ => 2,
            VirtualSensor::Co2 => 3,
            VirtualSensor::Voc => 4,
            VirtualSensor::RawTemperature => 6,
            VirtualSensor::RawPressure => 7,
            VirtualSensor::RawHumidity => 8,
            VirtualSensor::RawGas => 9,
            VirtualSensor::StabilizationStatus => 12,
            VirtualSensor::RunInStatus => 13,
            VirtualSensor::HeatCompensatedTemperature => 14,
            VirtualSensor::HeatCompensatedHumidity => 15,
            VirtualSensor::GasPercentage => 21,
            VirtualSensor::GasEstimate1 => 22,
            VirtualSensor::GasEstimate2 => 23,
            VirtualSensor::GasEstimate3 => 24,
            VirtualSensor::GasEstimate4 => 25,
            VirtualSensor::RawGasIndex => 26,
        }
    }

    /// Decodes an interface id.
    pub fn from_raw(id: u32) -> (r: Option<VirtualSensor>)
        ensures
            r == spec_virtual_from_id(id),
    {
        if id == 1 {
            Some(VirtualSensor::IAQ)
        } else if id == 2 {
            Some(VirtualSensor::StaticIAQ)
        } else if id == 3 {
            Some(VirtualSensor::Co2)
        } else if id == 4 {
            Some(VirtualSensor::Voc)
        } else if id == 6 {
            Some(VirtualSensor::RawTemperature)
        } else if id == 7 {
            Some(VirtualSensor::RawPressure)
        } else if id == 8 {
            Some(VirtualSensor::RawHumidity)
        } else if id == 9 {
            Some(VirtualSensor::RawGas)
        } else if id == 12 {
            Some(VirtualSensor::StabilizationStatus)
        } else if id == 13 {
            Some(VirtualSensor::RunInStatus)
        } else if id == 14 {
            Some(VirtualSensor::HeatCompensatedTemperature)
        } else if id == 15 {
            Some(VirtualSensor::HeatCompensatedHumidity)
        } else if id == 21 {
            Some(VirtualSensor::GasPercentage)
        } else if id == 22 {
            Some(VirtualSensor::GasEstimate1)
        } else if id == 23 {
            Some(VirtualSensor::GasEstimate2)
        } else if id == 24 {
            Some(VirtualSensor::GasEstimate3)
        } else if id == 25 {
            Some(VirtualSensor::GasEstimate4)
        } else if id == 26 {
            Some(VirtualSensor::RawGasIndex)
        } else {
            None
        }
    }
}

/// Either side of the fusion interface's sensor vocabulary.
#[derive(Debug, Clone, Copy, PartialEq, Eq, Structural)]
pub enum Sensor {
    Virtual(VirtualSensor),
    Phyical(PhysicalSensor),
}

/// Interface id of a sensor of either kind.
pub open spec fn spec_sensor_id(s: Sensor) -> int {
    match s {
        Sensor::Virtual(v) => spec_virtual_id(v),
        Sensor::Phyical(p) => spec_physical_id(p),
    }
}

impl Sensor {
    /// The interface id of this sensor.
    pub fn raw_id(&self) -> (r: u8)
        ensures
            r == spec_sensor_id(*self),
    {
        match self {
            Sensor::Virtual(v) => v.raw_id(),
            Sensor::Phyical(p) => p.raw_id(),
        }
    }

    /// Decodes an id, physical channels taking precedence, exactly as
    /// the interface assigns them.
    pub fn from_raw(sensor_id: u8) -> (r: Option<Sensor>)
        ensures
            spec_physical_from_id(sensor_id as u32) matches Some(p) ==> r == Some(
                Sensor::Phyical(p),
            ),
            spec_physical_from_id(sensor_id as u32) is None ==> r == (
            match spec_virtual_from_id(sensor_id as u32) {
                Some(v) => Some(Sensor::Virtual(v)),
                None => None,
            }),
    {
        if let Some(p) = PhysicalSensor::from_raw(sensor_id as u32) {
            Some(Sensor::Phyical(p))
        } else if let Some(v) = VirtualSensor::from_raw(sensor_id as u32) {
            Some(Sensor::Virtual(v))
        } else {
            None
        }
    }
}

/// Reliability class the fusion algorithm attaches to an output.
#[derive(Debug, Clone, Copy, PartialEq, Eq, Structural)]
pub enum Accuracy {
    Unreliable,
    Low,
    Medium,
    High,
}

/// The accuracy class of a raw accuracy value below 4.
pub open spec fn spec_accuracy(a: u8) -> Accuracy {
    if a == 0 {
        Accuracy::Unreliable
    } else if a == 1 {
        Accuracy::Low
    } else if a == 2 {
        Accuracy::Medium
    } else {
        Accuracy::High
    }
}

impl Accuracy {
    /// Decodes a raw accuracy value; the interface defines only 0..=3.
    pub fn from_raw(a: u8) -> (r: Option<Accuracy>)
        ensures
            a < 4 ==> r == Some(spec_accuracy(a)),
            a >= 4 ==> r is None,
    {
        if a == 0 {
            Some(Accuracy::Unreliable)
        } else if a == 1 {
            Some(Accuracy::Low)
        } else if a == 2 {
            Some(Accuracy::Medium)
        } else if a == 3 {
            Some(Accuracy::High)
        } else {
            None
        }
    }
}

/// Requested sample-rate class of a subscription.
#[derive(Debug, Clone, Copy, PartialEq, Eq, Structural)]
pub enum SampleRate {
    Disabled,
    /// ultra low power, one sample every 5 minutes (≈0.09 mA)
    Ulp,
    Cont,
    /// low power, one sample every 3 seconds (≈0.9 mA)
    Lp,
}

/// Seconds between samples of a rate class, where one is defined.
pub open spec fn spec_sample_time_interval(r: SampleRate) -> Option<u64> {
    match r {
        SampleRate::Disabled => None,
        SampleRate::Ulp => Some(300u64),
        SampleRate::Cont => None,
        SampleRate::Lp => Some(3u64),
    }
}

impl SampleRate {
    /// The sampling period of this rate class in seconds, if it has one.
    pub fn sample_time_interval(&self) -> (r: Option<u64>)
        ensures
            r == spec_sample_time_interval(*self),
    {
        match self {
            SampleRate::Disabled => None,
            SampleRate::Ulp => Some(300),
            SampleRate::Cont => None,
            SampleRate::Lp => Some(3),
        }
    }
}

/// One requested virtual output at a chosen rate class.
#[derive(Debug, Clone, Copy, PartialEq, Eq, Structural)]
pub struct VirtualSensorConfiguration {
    pub sample_rate: SampleRate,
    pub sensor: VirtualSensor,
}

/// A sensor/rate pair as the interface reports it; the rate is the raw
/// bit pattern of the interface's 32-bit rate value.
#[derive(Debug, Clone, Copy, PartialEq, Eq, Structural)]
pub struct RawSensorConfiguration {
    pub sample_rate_bits: u32,
    pub sensor_id: u8,
}

/// A decoded sensor/rate pair.
#[derive(Debug, Clone, Copy, PartialEq, Eq, Structural)]
pub struct SensorConfiguration {
    pub sample_rate_bits: u32,
    pub sensor: Sensor,
}

impl SensorConfiguration {
    /// Decodes a pair the interface reported on the physical side; ids
    /// outside the physical vocabulary fall back to `Unknown`.
    pub fn from_raw_phys(r: &RawSensorConfiguration) -> (c: SensorConfiguration)
        ensures
            c.sample_rate_bits == r.sample_rate_bits,
            c.sensor == (match spec_physical_from_id(r.sensor_id as u32) {
                Some(p) => Sensor::Phyical(p),
                None => Sensor::Phyical(PhysicalSensor::Unknown),
            }),
    {
        let sensor = match PhysicalSensor::from_raw(r.sensor_id as u32) {
            Some(p) => Sensor::Phyical(p),
            None => Sensor::Phyical(PhysicalSensor::Unknown),
        };
        SensorConfiguration { sample_rate_bits: r.sample_rate_bits, sensor }
    }

    /// Decodes a pair the interface reported on the virtual side; the
    /// interface only hands back ids that were subscribed, so the id
    /// must be a known virtual kind.
    pub fn from_raw_virt(r: &RawSensorConfiguration) -> (c: SensorConfiguration)
        requires
            spec_virtual_from_id(r.sensor_id as u32) is Some,
        ensures
            c.sample_rate_bits == r.sample_rate_bits,
            spec_virtual_from_id(r.sensor_id as u32) matches Some(v) ==> c.sensor
                == Sensor::Virtual(v),
    {
        let sensor = match VirtualSensor::from_raw(r.sensor_id as u32) {
            Some(v) => Sensor::Virtual(v),
            None => Sensor::Phyical(PhysicalSensor::Unknown),
        };
        SensorConfiguration { sample_rate_bits: r.sample_rate_bits, sensor }
    }
}

/// Interface ids of a subscription request, one per requested virtual
/// output, in request order. The rate class travels beside them; its
/// 32-bit interface encoding is produced by the FFI glue.
pub fn subscription_ids(requested: &Vec<VirtualSensorConfiguration>) -> (ids: Vec<u8>)
    ensures
        ids@.len() == requested@.len(),
        forall|k: int|
            0 <= k < requested@.len() ==> #[trigger] ids@[k] == spec_virtual_id(
                requested@[k].sensor,
            ),
{
    let mut ids: Vec<u8> = Vec::new();
    let n: usize = requested.len();
    let mut i: usize = 0;
    while i < n
        invariant
            n == requested@.len(),
            i <= n,
            ids@.len() == i,
            forall|k: int|
                0 <= k < i ==> #[trigger] ids@[k] == spec_virtual_id(requested@[k].sensor),
        decreases n - i,
    {
        ids.push(requested[i].sensor.raw_id());
        i += 1;
    }
    ids
}

/// One fusion output as the interface reports it: the signal is the raw
/// bit pattern of the interface's 32-bit value.
#[derive(Debug, Clone, Copy, PartialEq, Eq, Structural)]
pub struct RawOutput {
    pub time_stamp: i64,
    pub signal_bits: u32,
    pub sensor_id: u8,
    pub accuracy: u8,
}

/// One decoded fusion output.
#[derive(Debug, Clone, Copy, PartialEq, Eq, Structural)]
pub struct Output {
    pub timestamp: u64,
    /// Raw bit pattern of the 32-bit signal; this crate never computes
    /// with it.
    pub signal_bits: u32,
    pub sensor: VirtualSensor,
    pub accuracy: Accuracy,
}

/// The decoded form of a raw output of kind `v`.
pub open spec fn spec_output_of(r: RawOutput, v: VirtualSensor) -> Output {
    Output {
        timestamp: r.time_stamp as u64,
        signal_bits: r.signal_bits,
        sensor: v,
        accuracy: spec_accuracy(r.accuracy),
    }
}

impl Output {
    /// Decodes one raw output record.
    pub fn from_raw(r: &RawOutput) -> (o: Output)
        requires
            spec_virtual_from_id(r.sensor_id as u32) is Some,
            r.accuracy < 4,
        ensures
            spec_virtual_from_id(r.sensor_id as u32) matches Some(v) ==> o == spec_output_of(
                *r,
                v,
            ),
    {
        let sensor = match VirtualSensor::from_raw(r.sensor_id as u32) {
            Some(v) => v,
            None => VirtualSensor::IAQ,
        };
        let accuracy = match Accuracy::from_raw(r.accuracy) {
            Some(a) => a,
            None => Accuracy::Unreliable,
        };
        Output { timestamp: r.time_stamp as u64, signal_bits: r.signal_bits, sensor, accuracy }
    }
}

/// The classified outputs of one fusion step, at most one per kind.
#[derive(Debug, Clone, Copy)]
pub struct Outputs {
    pub raw_gas: Option<Output>,
    pub raw_humidity: Option<Output>,
    pub raw_temperature: Option<Output>,
    pub raw_pressure: Option<Output>,
    pub iaq: Option<Output>,
    pub static_iaq: Option<Output>,
    pub co2: Option<Output>,
    pub voc: Option<Output>,
    pub stabilization_status: Option<Output>,
    pub run_in_status: Option<Output>,
    pub heat_compensated_temperature: Option<Output>,
    pub heat_compensated_humidity: Option<Output>,
    pub gas_estimate1: Option<Output>,
    pub gas_estimate2: Option<Output>,
    pub gas_estimate3: Option<Output>,
    pub gas_estimate4: Option<Output>,
}

impl Default for Outputs {
    /// No output of any kind.
    fn default() -> (o: Outputs)
        ensures
            o == spec_no_outputs(),
    {
        Outputs {
            raw_gas: None,
            raw_humidity: None,
            raw_temperature: None,
            raw_pressure: None,
            iaq: None,
            static_iaq: None,
            co2: None,
            voc: None,
            stabilization_status: None,
            run_in_status: None,
            heat_compensated_temperature: None,
            heat_compensated_humidity: None,
            gas_estimate1: None,
            gas_estimate2: None,
            gas_estimate3: None,
            gas_estimate4: None,
        }
    }
}

/// The empty classification record.
pub open spec fn spec_no_outputs() -> Outputs {
    Outputs {
        raw_gas: None,
        raw_humidity: None,
        raw_temperature: None,
        raw_pressure: None,
        iaq: None,
        static_iaq: None,
        co2: None,
        voc: None,
        stabilization_status: None,
        run_in_status: None,
        heat_compensated_temperature: None,
        heat_compensated_humidity: None,
        gas_estimate1: None,
        gas_estimate2: None,
        gas_estimate3: None,
        gas_estimate4: None,
    }
}

/// Output kinds the classifier routes into a field of [`Outputs`]; the
/// remaining kinds are dropped silently.
pub open spec fn spec_routed(v: VirtualSensor) -> bool {
    !(v is GasPercentage || v is RawGasIndex)
}

/// The latest output of kind `v` in the record sequence, decoded; `None`
/// when no record of that kind occurs.
pub open spec fn spec_last_output_for(s: Seq<RawOutput>, v: VirtualSensor) -> Option<Output>
    decreases s.len(),
{
    if s.len() == 0 {
        None
    } else if spec_virtual_from_id(s.last().sensor_id as u32) == Some(v) {
        Some(spec_output_of(s.last(), v))
    } else {
        spec_last_output_for(s.drop_last(), v)
    }
}

/// Processing one more record either replaces the slot of its kind or
/// leaves every other kind's slot as it was.
proof fn lemma_last_output_step(s: Seq<RawOutput>, i: int, v: VirtualSensor)
    requires
        0 <= i < s.len(),
    ensures
        spec_last_output_for(s.take(i + 1), v) == (if spec_virtual_from_id(
            s[i].sensor_id as u32,
        ) == Some(v) {
            Some(spec_output_of(s[i], v))
        } else {
            spec_last_output_for(s.take(i), v)
        }),
{
    assert(s.take(i + 1).drop_last() =~= s.take(i));
    assert(s.take(i + 1).last() == s[i]);
}

/// Classifies the raw outputs of one fusion step by kind: for every
/// routed kind the latest record of that kind lands in its field,
/// records of unknown or unrouted kinds are dropped silently.
pub fn classify_outputs(raw: &Vec<RawOutput>) -> (out: Outputs)
    requires
        forall|j: int|
            #![trigger raw@[j]]
            0 <= j < raw@.len() ==> ((spec_virtual_from_id(raw@[j].sensor_id as u32) matches Some(
                v,
            ) && spec_routed(v)) ==> raw@[j].accuracy < 4),
    ensures
        out.iaq == spec_last_output_for(raw@, VirtualSensor::IAQ),
        out.static_iaq == spec_last_output_for(raw@, VirtualSensor::StaticIAQ),
        out.co2 == spec_last_output_for(raw@, VirtualSensor::Co2),
        out.voc == spec_last_output_for(raw@, VirtualSensor::Voc),
        out.raw_pressure == spec_last_output_for(raw@, VirtualSensor::RawPressure),
        out.raw_humidity == spec_last_output_for(raw@, VirtualSensor::RawHumidity),
        out.raw_temperature == spec_last_output_for(raw@, VirtualSensor::RawTemperature),
        out.raw_gas == spec_last_output_for(raw@, VirtualSensor::RawGas),
        out.stabilization_status == spec_last_output_for(
            raw@,
            VirtualSensor::StabilizationStatus,
        ),
        out.run_in_status == spec_last_output_for(raw@, VirtualSensor::RunInStatus),
        out.heat_compensated_temperature == spec_last_output_for(
            raw@,
            VirtualSensor::HeatCompensatedTemperature,
        ),
        out.heat_compensated_humidity == spec_last_output_for(
            raw@,
            VirtualSensor::HeatCompensatedHumidity,
        ),
        out.gas_estimate1 == spec_last_output_for(raw@, VirtualSensor::GasEstimate1),
        out.gas_estimate2 == spec_last_output_for(raw@, VirtualSensor::GasEstimate2),
        out.gas_estimate3 == spec_last_output_for(raw@, VirtualSensor::GasEstimate3),
        out.gas_estimate4 == spec_last_output_for(raw@, VirtualSensor::GasEstimate4),
{
    let mut out = Outputs::default();
    let n: usize = raw.len();
    let mut i: usize = 0;
    while i < n
        invariant
            n == raw@.len(),
            i <= n,
            forall|j: int|
                #![trigger raw@[j]]
                0 <= j < raw@.len() ==> ((spec_virtual_from_id(raw@[j].sensor_id as u32)
                    matches Some(v) && spec_routed(v)) ==> raw@[j].accuracy < 4),
            out.iaq == spec_last_output_for(raw@.take(i as int), VirtualSensor::IAQ),
            out.static_iaq == spec_last_output_for(raw@.take(i as int), VirtualSensor::StaticIAQ),
            out.co2 == spec_last_output_for(raw@.take(i as int), VirtualSensor::Co2),
            out.voc == spec_last_output_for(raw@.take(i as int), VirtualSensor::Voc),
            out.raw_pressure == spec_last_output_for(
                raw@.take(i as int),
                VirtualSensor::RawPressure,
            ),
            out.raw_humidity == spec_last_output_for(
                raw@.take(i as int),
                VirtualSensor::RawHumidity,
            ),
            out.raw_temperature == spec_last_output_for(
                raw@.take(i as int),
                VirtualSensor::RawTemperature,
            ),
            out.raw_gas == spec_last_output_for(raw@.take(i as int), VirtualSensor::RawGas),
            out.stabilization_status == spec_last_output_for(
                raw@.take(i as int),
                VirtualSensor::StabilizationStatus,
            ),
            out.run_in_status == spec_last_output_for(
                raw@.take(i as int),
                VirtualSensor::RunInStatus,
            ),
            out.heat_compensated_temperature == spec_last_output_for(
                raw@.take(i as int),
                VirtualSensor::HeatCompensatedTemperature,
            ),
            out.heat_compensated_humidity == spec_last_output_for(
                raw@.take(i as int),
                VirtualSensor::HeatCompensatedHumidity,
            ),
            out.gas_estimate1 == spec_last_output_for(
                raw@.take(i as int),
                VirtualSensor::GasEstimate1,
            ),
            out.gas_estimate2 == spec_last_output_for(
                raw@.take(i as int),
                VirtualSensor::GasEstimate2,
            ),
            out.gas_estimate3 == spec_last_output_for(
                raw@.take(i as int),
                VirtualSensor::GasEstimate3,
            ),
            out.gas_estimate4 == spec_last_output_for(
                raw@.take(i as int),
                VirtualSensor::GasEstimate4,
            ),
        decreases n - i,
    {
        let r: RawOutput = raw[i];
        proof {
            lemma_last_output_step(raw@, i as int, VirtualSensor::IAQ);
            lemma_last_output_step(raw@, i as int, VirtualSensor::StaticIAQ);
            lemma_last_output_step(raw@, i as int, VirtualSensor::Co2);
            lemma_last_output_step(raw@, i as int, VirtualSensor::Voc);
            lemma_last_output_step(raw@, i as int, VirtualSensor::RawPressure);
            lemma_last_output_step(raw@, i as int, VirtualSensor::RawHumidity);
            lemma_last_output_step(raw@, i as int, VirtualSensor::RawTemperature);
            lemma_last_output_step(raw@, i as int, VirtualSensor::RawGas);
            lemma_last_output_step(raw@, i as int, VirtualSensor::StabilizationStatus);
            lemma_last_output_step(raw@, i as int, VirtualSensor::RunInStatus);
            lemma_last_output_step(raw@, i as int, VirtualSensor::HeatCompensatedTemperature);
            lemma_last_output_step(raw@, i as int, VirtualSensor::HeatCompensatedHumidity);
            lemma_last_output_step(raw@, i as int, VirtualSensor::GasEstimate1);
            lemma_last_output_step(raw@, i as int, VirtualSensor::GasEstimate2);
            lemma_last_output_step(raw@, i as int, VirtualSensor::GasEstimate3);
            lemma_last_output_step(raw@, i as int, VirtualSensor::GasEstimate4);
        }
        if let Some(sensor_type) = VirtualSensor::from_raw(r.sensor_id as u32) {
            match sensor_type {
                VirtualSensor::RawGas => out.raw_gas = Some(Output::from_raw(&r)),
                VirtualSensor::RawHumidity => out.raw_humidity = Some(Output::from_raw(&r)),
                VirtualSensor::RawPressure => out.raw_pressure = Some(Output::from_raw(&r)),
                VirtualSensor::RawTemperature => out.raw_temperature = Some(Output::from_raw(&r)),
                VirtualSensor::IAQ => out.iaq = Some(Output::from_raw(&r)),
                VirtualSensor::StaticIAQ => out.static_iaq = Some(Output::from_raw(&r)),
                VirtualSensor::Co2 => out.co2 = Some(Output::from_raw(&r)),
                VirtualSensor::Voc => out.voc = Some(Output::from_raw(&r)),
                VirtualSensor::StabilizationStatus => out.stabilization_status = Some(
                    Output::from_raw(&r),
                ),
                VirtualSensor::RunInStatus => out.run_in_status = Some(Output::from_raw(&r)),
                VirtualSensor::HeatCompensatedTemperature => out.heat_compensated_temperature =
                    Some(Output::from_raw(&r)),
                VirtualSensor::HeatCompensatedHumidity => out.heat_compensated_humidity = Some(
                    Output::from_raw(&r),
                ),
                VirtualSensor::GasEstimate1 => out.gas_estimate1 = Some(Output::from_raw(&r)),
                VirtualSensor::GasEstimate2 => out.gas_estimate2 = Some(Output::from_raw(&r)),
                VirtualSensor::GasEstimate3 => out.gas_estimate3 = Some(Output::from_raw(&r)),
                VirtualSensor::GasEstimate4 => out.gas_estimate4 = Some(Output::from_raw(&r)),
                _ => (),
            }
        }
        i += 1;
    }
    proof {
        assert(raw@.take(n as int) =~= raw@);
    }
    out
}

} // verus!
