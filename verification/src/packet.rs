//! Wire packets handed to the broadcast transport.
//!
//! A packet carries either one measurement or a device-info record, behind
//! a header with the device id and the sample timestamp. Fusion outputs are
//! 32-bit IEEE-754 signals produced by the vendor library; this crate never
//! computes with them, so it carries each one as its raw bit pattern
//! (`u32`). The transport glue converts bit patterns back to numbers when
//! it serializes a packet.

use vstd::prelude::*;

verus! {

/// Leading marker of every packet on the wire.
pub open spec fn spec_magic() -> Seq<char> {
    "BRST"@
}

/// Packet header: magic marker, sender id and timestamps.
#[derive(Debug)]
pub struct Header {
    /// Fixed wire marker; see [`spec_magic`].
    pub magic: String,
    pub device_id: u32,
    /// Milliseconds since boot at enqueue time.
    pub timestamp: u64,
    /// Milliseconds relative to the newest packet of the batch; rewritten
    /// just before broadcast.
    pub rel_timestamp: i64,
}

impl Header {
    /// Builds a header with the fixed magic marker and a zero relative
    /// timestamp.
    pub fn new(device_id: u32, timestamp: u64) -> (h: Header)
        ensures
            h.magic_view() == spec_magic(),
            h.device_id == device_id,
            h.timestamp == timestamp,
            h.rel_timestamp == 0,
    {
        Header {
            magic: String::from_str("BRST"),
            device_id,
            timestamp,
            rel_timestamp: 0,
        }
    }

    /// The characters of the magic marker.
    pub open spec fn magic_view(&self) -> Seq<char> {
        self.magic@
    }

    /// True when the header carries the expected magic marker.
    pub open spec fn spec_magic_ok(&self) -> bool {
        self.magic_view() == spec_magic()
    }
}

impl Clone for Header {
    fn clone(&self) -> (r: Self)
        ensures
            r.magic_view() == self.magic_view(),
            r.device_id == self.device_id,
            r.timestamp == self.timestamp,
            r.rel_timestamp == self.rel_timestamp,
    {
        Header {
            magic: String::from_str(self.magic.as_str()),
            device_id: self.device_id,
            timestamp: self.timestamp,
            rel_timestamp: self.rel_timestamp,
        }
    }
}

/// One packet: header plus payload.
#[derive(Debug)]
pub struct Packet {
    pub header: Header,
    pub payload: Payload,
}

/// Field-wise agreement of two packets; headers are compared with the
/// magic marker taken by its characters.
pub open spec fn spec_packet_congruent(a: Packet, b: Packet) -> bool {
    &&& a.header.magic_view() == b.header.magic_view()
    &&& a.header.device_id == b.header.device_id
    &&& a.header.timestamp == b.header.timestamp
    &&& a.header.rel_timestamp == b.header.rel_timestamp
    &&& a.payload == b.payload
}

impl Clone for Packet {
    fn clone(&self) -> (r: Self)
        ensures
            spec_packet_congruent(r, *self),
    {
        Packet { header: self.header.clone(), payload: self.payload.clone() }
    }
}

/// What a packet carries.
#[derive(Debug)]
pub enum Payload {
    Measurement(Measurement),
    DeviceInfo(DeviceInfo),
}

impl Clone for Payload {
    fn clone(&self) -> (r: Self)
        ensures
            r == *self,
    {
        match self {
            Payload::Measurement(m) => Payload::Measurement(*m),
            Payload::DeviceInfo(d) => Payload::DeviceInfo(*d),
        }
    }
}

/// One reported sample. Every channel is optional: a fusion output that was
/// not produced in this cycle stays absent. Each present value is the raw
/// bit pattern of the 32-bit IEEE-754 signal.
#[derive(Debug, Clone, Copy, Default)]
pub struct Measurement {
    /// °C
    pub temperature: Option<u32>,
    /// Pa
    pub pressure: Option<u32>,
    /// percent
    pub humidity: Option<u32>,
    /// index points
    pub air_quality: Option<u32>,
    /// V
    pub bat_voltage: Option<u32>,
    /// percent
    pub bat_capacity: Option<u32>,
}

/// Periodic self-description of the node.
#[derive(Debug, Clone, Copy)]
pub struct DeviceInfo {
    /// seconds
    pub uptime: u64,
    /// seconds
    pub report_interval: u64,
    /// seconds
    pub sample_interval: u64,
    /// major.minor.bugfix.misc
    pub firmware_version: [u8; 4],
    /// major.minor.bugfix.misc
    pub bsec_version: [u8; 4],
    /// utf8 string, zero padded
    pub model: [u8; 16],
    /// utf8 string, zero padded (last connected network)
    pub wifi_ssid: Option<[u8; 32]>,
}

} // verus!
