//! Data model of the capture pipeline: one decoded network event (a record),
//! the diagnostic heartbeat and process-log messages, and the error kinds.

use vstd::prelude::*;

verus! {

/// Tag carried by a wire message, telling which payload it holds.
#[derive(Debug, Clone, Copy, PartialEq, Eq, Structural)]
pub enum LogType {
    Heartbeat,
    ProcessLog,
    Event,
}

/// The tag a raw byte maps to: 0 and 1 are the diagnostic kinds, anything
/// else is treated as an event.
pub open spec fn log_type_of(value: u8) -> LogType {
    if value == 0 {
        LogType::Heartbeat
    } else if value == 1 {
        LogType::ProcessLog
    } else {
        LogType::Event
    }
}

impl From<u8> for LogType {
    fn from(value: u8) -> (r: Self) {
        if value == 0 {
            LogType::Heartbeat
        } else if value == 1 {
            LogType::ProcessLog
        } else {
            LogType::Event
        }
    }
}

impl vstd::std_specs::convert::FromSpecImpl<u8> for LogType {
    open spec fn obeys_from_spec() -> bool {
        true
    }

    open spec fn from_spec(value: u8) -> LogType {
        log_type_of(value)
    }
}

/// Mathematical model of one stored record.
pub struct PacketModel {
    pub index: u64,
    pub timestamp: i64,
    pub uuid: Seq<char>,
    pub src_ip: Seq<char>,
    pub src_port: u32,
    pub dst_ip: Seq<char>,
    pub dst_port: u32,
    pub pid: i32,
    pub pname: Seq<char>,
    pub kind: u32,
    pub length: u32,
    pub is_binary: bool,
    pub payload_utf8: Seq<char>,
    pub payload_binary: Seq<u8>,
}

/// One captured network event, as stored in the table. The `index` field is
/// assigned by the store; everything else comes from the producer.
#[derive(Debug, Clone, PartialEq)]
pub struct PacketData {
    pub index: u64,
    pub timestamp: i64,
    pub uuid: String,
    pub src_ip: String,
    pub src_port: u32,
    pub dst_ip: String,
    pub dst_port: u32,
    pub pid: i32,
    pub pname: String,
    pub kind: u32,
    pub length: u32,
    pub is_binary: bool,
    pub payload_utf8: String,
    pub payload_binary: Vec<u8>,
}

impl View for PacketData {
    type V = PacketModel;

    open spec fn view(&self) -> PacketModel {
        PacketModel {
            index: self.index,
            timestamp: self.timestamp,
            uuid: self.uuid@,
            src_ip: self.src_ip@,
            src_port: self.src_port,
            dst_ip: self.dst_ip@,
            dst_port: self.dst_port,
            pid: self.pid,
            pname: self.pname@,
            kind: self.kind,
            length: self.length,
            is_binary: self.is_binary,
            payload_utf8: self.payload_utf8@,
            payload_binary: self.payload_binary@,
        }
    }
}

/// Mathematical model of one record as forwarded to the display surface:
/// the same fields without the payload columns.
pub struct PacketFrontendModel {
    pub index: u64,
    pub timestamp: i64,
    pub uuid: Seq<char>,
    pub src_ip: Seq<char>,
    pub src_port: u32,
    pub dst_ip: Seq<char>,
    pub dst_port: u32,
    pub pid: i32,
    pub pname: Seq<char>,
    pub kind: u32,
    pub length: u32,
    pub is_binary: bool,
}

/// The lightweight copy of a record that the push service forwards: payload
/// columns are left out to keep the transmission small.
#[derive(Debug, Clone, PartialEq)]
pub struct PacketDataFrontend {
    pub index: u64,
    pub timestamp: i64,
    pub uuid: String,
    pub src_ip: String,
    pub src_port: u32,
    pub dst_ip: String,
    pub dst_port: u32,
    pub pid: i32,
    pub pname: String,
    pub kind: u32,
    pub length: u32,
    pub is_binary: bool,
}

impl View for PacketDataFrontend {
    type V = PacketFrontendModel;

    open spec fn view(&self) -> PacketFrontendModel {
        PacketFrontendModel {
            index: self.index,
            timestamp: self.timestamp,
            uuid: self.uuid@,
            src_ip: self.src_ip@,
            src_port: self.src_port,
            dst_ip: self.dst_ip@,
            dst_port: self.dst_port,
            pid: self.pid,
            pname: self.pname@,
            kind: self.kind,
            length: self.length,
            is_binary: self.is_binary,
        }
    }
}

/// A heartbeat from the producer; informational only, never stored.
#[derive(Debug, Clone, PartialEq)]
pub struct HeartbeatMessage {
    pub timestamp: i64,
    pub count: i32,
    pub message: String,
}

/// A log line from the capture process; informational only, never stored.
#[derive(Debug, Clone, PartialEq)]
pub struct ProcessLogMessage {
    pub log_info: String,
}

/// The result of decoding one wire message.
#[derive(Debug, Clone)]
pub enum ParsedMessage {
    Heartbeat(HeartbeatMessage),
    ProcessLog(ProcessLogMessage),
    Event(PacketData),
}

/// Why a wire payload could not be decoded. A decode failure is always local
/// to one message and never aborts the ingestion loop.
#[derive(Debug, Clone, Copy, PartialEq, Eq, Structural)]
pub enum DecodeError {
    /// The input ended in the middle of a varint or a length-delimited field.
    Truncated,
    /// A varint ran past ten bytes or past the 64-bit range.
    InvalidVarint,
    /// A field key carried a wire type this protocol does not use.
    InvalidWireType,
    /// A string field held bytes that are not valid UTF-8.
    InvalidUtf8,
    /// The envelope carried none of the three payload kinds.
    MissingPayload,
}

impl DecodeError {
    /// A short description, usable in diagnostics.
    pub fn describe(&self) -> (r: &'static str) {
        match self {
            DecodeError::Truncated => "input truncated",
            DecodeError::InvalidVarint => "invalid varint",
            DecodeError::InvalidWireType => "unsupported wire type",
            DecodeError::InvalidUtf8 => "string field is not valid UTF-8",
            DecodeError::MissingPayload => "missing payload in log entry",
        }
    }
}

/// Why a query could not be answered.
#[derive(Debug, Clone, PartialEq)]
pub enum QueryError {
    /// The query engine rejected the composed query; the engine's message.
    Engine(String),
    /// The engine returned a table whose shape does not match the fixed
    /// projection this pipeline always applies.
    BadShape,
}

/// Saturating narrowing of a producer-side 64-bit integer into a stored
/// 32-bit field: values above the maximum clamp to the maximum, values below
/// the minimum clamp to the minimum.
pub open spec fn spec_saturate_i32(v: i64) -> i32 {
    if v > i32::MAX as i64 {
        i32::MAX
    } else if v < i32::MIN as i64 {
        i32::MIN
    } else {
        v as i32
    }
}

/// Narrow a 64-bit integer to 32 bits, clamping out-of-range values to the
/// nearest bound.
pub fn saturate_i32(v: i64) -> (r: i32)
    ensures
        r == spec_saturate_i32(v),
{
    if v > i32::MAX as i64 {
        i32::MAX
    } else if v < i32::MIN as i64 {
        i32::MIN
    } else {
        v as i32
    }
}

} // verus!
