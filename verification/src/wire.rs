//! The input wire protocol: a tagged, length-delimited binary envelope
//! carrying one of {Event, Heartbeat, RunLog}.
//!
//! A message is a sequence of fields. Each field starts with a varint key
//! `(field_number << 3) | wire_type`; wire type 0 is a varint value, wire
//! type 2 a length-delimited value (a varint byte count, then the bytes).
//! Unknown field numbers are skipped, the last occurrence of a field wins,
//! and absent fields keep their zero-equivalent defaults. Integers use
//! base-128 varints, least-significant group first; an encoding longer than
//! ten bytes or exceeding the 64-bit range is rejected.
//!
//! The envelope (`LogEntry`) carries exactly one payload field:
//! 1 = Event, 2 = Heartbeat, 3 = RunLog (a UTF-8 string).
//! An Event carries: 1 timestamp (i64), 2 uuid (string), 3 src_ip (string),
//! 4 src_port (u32), 5 dst_ip (string), 6 dst_port (u32), 7 pid (i64),
//! 8 pname (string), 9 kind (u32), 10 length (u32), 11 payload (bytes).
//! A Heartbeat carries: 1 timestamp (i64), 2 count (i64), 3 message (string).

use vstd::prelude::*;
use vstd::utf8::{valid_utf8, decode_utf8};
use crate::models::DecodeError;

verus! {

/// Decoded fields of an Event message, before the record conversion.
pub struct EventModel {
    pub timestamp: i64,
    pub uuid: Seq<char>,
    pub src_ip: Seq<char>,
    pub src_port: u32,
    pub dst_ip: Seq<char>,
    pub dst_port: u32,
    pub pid: i64,
    pub pname: Seq<char>,
    pub kind: u32,
    pub length: u32,
    pub payload: Seq<u8>,
}

/// Decoded fields of a Heartbeat message.
pub struct HeartbeatModel {
    pub timestamp: i64,
    pub count: i64,
    pub message: Seq<char>,
}

/// The payload a decoded envelope carries.
pub enum EntryModel {
    Event(EventModel),
    Heartbeat(HeartbeatModel),
    RunLog(Seq<char>),
}

/// The all-defaults Event, before any field is applied.
pub open spec fn event_default() -> EventModel {
    EventModel {
        timestamp: 0,
        uuid: Seq::empty(),
        src_ip: Seq::empty(),
        src_port: 0,
        dst_ip: Seq::empty(),
        dst_port: 0,
        pid: 0,
        pname: Seq::empty(),
        kind: 0,
        length: 0,
        payload: Seq::empty(),
    }
}

/// The all-defaults Heartbeat.
pub open spec fn heartbeat_default() -> HeartbeatModel {
    HeartbeatModel { timestamp: 0, count: 0, message: Seq::empty() }
}

/// Base-128 varint decoding: the value and the number of bytes consumed
/// from the front of `s`.
pub open spec fn dec_varint(s: Seq<u8>) -> Result<(u64, int), DecodeError>
    decreases s.len(),
{
    if s.len() == 0 {
        Err(DecodeError::Truncated)
    } else if s[0] < 0x80 {
        Ok((s[0] as u64, 1))
    } else {
        match dec_varint(s.skip(1)) {
            Err(e) => Err(e),
            Ok((v, n)) => {
                if n >= 10 || v >= 0x0200_0000_0000_0000u64 {
                    Err(DecodeError::InvalidVarint)
                } else {
                    Ok(((((s[0] & 0x7f) as u64) | (v << 7)) as u64, n + 1))
                }
            },
        }
    }
}

/// A successful varint decode consumes between one byte and the whole input.
pub proof fn lemma_dec_varint_bounds(s: Seq<u8>)
    ensures
        dec_varint(s) matches Ok((v, n)) ==> 1 <= n <= s.len(),
    decreases s.len(),
{
    if s.len() > 0 && s[0] >= 0x80 {
        lemma_dec_varint_bounds(s.skip(1));
    }
}

/// Read one varint starting at `pos`; on success the value and the count of
/// bytes consumed.
pub fn read_varint(bytes: &[u8], pos: usize) -> (r: Result<(u64, usize), DecodeError>)
    requires
        pos <= bytes@.len(),
    ensures
        match r {
            Ok(p) => dec_varint(bytes@.skip(pos as int)) == Ok::<(u64, int), DecodeError>((
                p.0,
                p.1 as int,
            )) && 1 <= p.1 && pos + p.1 <= bytes@.len(),
            Err(e) => dec_varint(bytes@.skip(pos as int)) == Err::<(u64, int), DecodeError>(e),
        },
    decreases bytes@.len() - pos,
{
    proof {
        lemma_dec_varint_bounds(bytes@.skip(pos as int));
    }
    if pos == bytes.len() {
        return Err(DecodeError::Truncated);
    }
    let b = bytes[pos];
    assert(bytes@.skip(pos as int)[0] == b);
    if b < 0x80 {
        Ok((b as u64, 1))
    } else {
        assert(bytes@.skip(pos as int).skip(1) =~= bytes@.skip(pos as int + 1));
        match read_varint(bytes, pos + 1) {
            Err(e) => Err(e),
            Ok((v, n)) => {
                if n >= 10 || v >= 0x0200_0000_0000_0000u64 {
                    Err(DecodeError::InvalidVarint)
                } else {
                    Ok((((b & 0x7f) as u64) | (v << 7u64), n + 1))
                }
            },
        }
    }
}

/// Effect of one varint field on an Event under decode: known field numbers
/// overwrite their slot (narrowing casts truncate, as the wire type is
/// wider), unknown ones are skipped.
pub open spec fn ev_set_varint(e: EventModel, field: u64, v: u64) -> EventModel {
    if field == 1 {
        EventModel { timestamp: v as i64, ..e }
    } else if field == 4 {
        EventModel { src_port: v as u32, ..e }
    } else if field == 6 {
        EventModel { dst_port: v as u32, ..e }
    } else if field == 7 {
        EventModel { pid: v as i64, ..e }
    } else if field == 9 {
        EventModel { kind: v as u32, ..e }
    } else if field == 10 {
        EventModel { length: v as u32, ..e }
    } else {
        e
    }
}

/// Effect of one length-delimited field on an Event under decode: string
/// fields must hold valid UTF-8, the payload field takes the raw bytes,
/// unknown fields are skipped.
pub open spec fn ev_set_len(e: EventModel, field: u64, data: Seq<u8>) -> Result<
    EventModel,
    DecodeError,
> {
    if field == 2 || field == 3 || field == 5 || field == 8 {
        if valid_utf8(data) {
            let s = decode_utf8(data);
            Ok(
                if field == 2 {
                    EventModel { uuid: s, ..e }
                } else if field == 3 {
                    EventModel { src_ip: s, ..e }
                } else if field == 5 {
                    EventModel { dst_ip: s, ..e }
                } else {
                    EventModel { pname: s, ..e }
                },
            )
        } else {
            Err(DecodeError::InvalidUtf8)
        }
    } else if field == 11 {
        Ok(EventModel { payload: data, ..e })
    } else {
        Ok(e)
    }
}

/// Decode the field stream of an Event, folding each field into `acc`.
pub open spec fn dec_event_fields(s: Seq<u8>, acc: EventModel) -> Result<EventModel, DecodeError>
    decreases s.len(),
    via dec_event_fields_decreases
{
    if s.len() == 0 {
        Ok(acc)
    } else {
        match dec_varint(s) {
            Err(e) => Err(e),
            Ok((tag, n)) => {
                if tag & 7 == 0 {
                    match dec_varint(s.skip(n)) {
                        Err(e) => Err(e),
                        Ok((v, m)) => dec_event_fields(
                            s.skip(n + m),
                            ev_set_varint(acc, tag >> 3, v),
                        ),
                    }
                } else if tag & 7 == 2 {
                    match dec_varint(s.skip(n)) {
                        Err(e) => Err(e),
                        Ok((l, m)) => {
                            if n + m + l > s.len() {
                                Err(DecodeError::Truncated)
                            } else {
                                match ev_set_len(acc, tag >> 3, s.subrange(n + m, n + m + l)) {
                                    Err(e) => Err(e),
                                    Ok(acc2) => dec_event_fields(s.skip(n + m + l), acc2),
                                }
                            }
                        },
                    }
                } else {
                    Err(DecodeError::InvalidWireType)
                }
            },
        }
    }
}

#[via_fn]
proof fn dec_event_fields_decreases(s: Seq<u8>, acc: EventModel) {
    lemma_dec_varint_bounds(s);
    if s.len() > 0 {
        if let Ok((tag, n)) = dec_varint(s) {
            lemma_dec_varint_bounds(s.skip(n));
        }
    }
}

/// A whole Event message: its field stream folded over the defaults.
pub open spec fn dec_event(s: Seq<u8>) -> Result<EventModel, DecodeError> {
    dec_event_fields(s, event_default())
}

/// Effect of one varint field on a Heartbeat under decode.
pub open spec fn hb_set_varint(h: HeartbeatModel, field: u64, v: u64) -> HeartbeatModel {
    if field == 1 {
        HeartbeatModel { timestamp: v as i64, ..h }
    } else if field == 2 {
        HeartbeatModel { count: v as i64, ..h }
    } else {
        h
    }
}

/// Effect of one length-delimited field on a Heartbeat under decode.
pub open spec fn hb_set_len(h: HeartbeatModel, field: u64, data: Seq<u8>) -> Result<
    HeartbeatModel,
    DecodeError,
> {
    if field == 3 {
        if valid_utf8(data) {
            Ok(HeartbeatModel { message: decode_utf8(data), ..h })
        } else {
            Err(DecodeError::InvalidUtf8)
        }
    } else {
        Ok(h)
    }
}

/// Decode the field stream of a Heartbeat, folding each field into `acc`.
pub open spec fn dec_heartbeat_fields(s: Seq<u8>, acc: HeartbeatModel) -> Result<
    HeartbeatModel,
    DecodeError,
>
    decreases s.len(),
    via dec_heartbeat_fields_decreases
{
    if s.len() == 0 {
        Ok(acc)
    } else {
        match dec_varint(s) {
            Err(e) => Err(e),
            Ok((tag, n)) => {
                if tag & 7 == 0 {
                    match dec_varint(s.skip(n)) {
                        Err(e) => Err(e),
                        Ok((v, m)) => dec_heartbeat_fields(
                            s.skip(n + m),
                            hb_set_varint(acc, tag >> 3, v),
                        ),
                    }
                } else if tag & 7 == 2 {
                    match dec_varint(s.skip(n)) {
                        Err(e) => Err(e),
                        Ok((l, m)) => {
                            if n + m + l > s.len() {
                                Err(DecodeError::Truncated)
                            } else {
                                match hb_set_len(acc, tag >> 3, s.subrange(n + m, n + m + l)) {
                                    Err(e) => Err(e),
                                    Ok(acc2) => dec_heartbeat_fields(s.skip(n + m + l), acc2),
                                }
                            }
                        },
                    }
                } else {
                    Err(DecodeError::InvalidWireType)
                }
            },
        }
    }
}

#[via_fn]
proof fn dec_heartbeat_fields_decreases(s: Seq<u8>, acc: HeartbeatModel) {
    lemma_dec_varint_bounds(s);
    if s.len() > 0 {
        if let Ok((tag, n)) = dec_varint(s) {
            lemma_dec_varint_bounds(s.skip(n));
        }
    }
}

/// A whole Heartbeat message.
pub open spec fn dec_heartbeat(s: Seq<u8>) -> Result<HeartbeatModel, DecodeError> {
    dec_heartbeat_fields(s, heartbeat_default())
}

/// Effect of one length-delimited field on the envelope: the three payload
/// kinds each replace whatever payload was seen before; unknown fields are
/// skipped.
pub open spec fn entry_set_len(acc: Option<EntryModel>, field: u64, data: Seq<u8>) -> Result<
    Option<EntryModel>,
    DecodeError,
> {
    if field == 1 {
        match dec_event(data) {
            Ok(m) => Ok(Some(EntryModel::Event(m))),
            Err(e) => Err(e),
        }
    } else if field == 2 {
        match dec_heartbeat(data) {
            Ok(m) => Ok(Some(EntryModel::Heartbeat(m))),
            Err(e) => Err(e),
        }
    } else if field == 3 {
        if valid_utf8(data) {
            Ok(Some(EntryModel::RunLog(decode_utf8(data))))
        } else {
            Err(DecodeError::InvalidUtf8)
        }
    } else {
        Ok(acc)
    }
}

/// Decode the field stream of the envelope; varint fields are unknown to the
/// envelope and skipped.
pub open spec fn dec_entry_fields(s: Seq<u8>, acc: Option<EntryModel>) -> Result<
    Option<EntryModel>,
    DecodeError,
>
    decreases s.len(),
    via dec_entry_fields_decreases
{
    if s.len() == 0 {
        Ok(acc)
    } else {
        match dec_varint(s) {
            Err(e) => Err(e),
            Ok((tag, n)) => {
                if tag & 7 == 0 {
                    match dec_varint(s.skip(n)) {
                        Err(e) => Err(e),
                        Ok((v, m)) => dec_entry_fields(s.skip(n + m), acc),
                    }
                } else if tag & 7 == 2 {
                    match dec_varint(s.skip(n)) {
                        Err(e) => Err(e),
                        Ok((l, m)) => {
                            if n + m + l > s.len() {
                                Err(DecodeError::Truncated)
                            } else {
                                match entry_set_len(acc, tag >> 3, s.subrange(n + m, n + m + l)) {
                                    Err(e) => Err(e),
                                    Ok(acc2) => dec_entry_fields(s.skip(n + m + l), acc2),
                                }
                            }
                        },
                    }
                } else {
                    Err(DecodeError::InvalidWireType)
                }
            },
        }
    }
}

#[via_fn]
proof fn dec_entry_fields_decreases(s: Seq<u8>, acc: Option<EntryModel>) {
    lemma_dec_varint_bounds(s);
    if s.len() > 0 {
        if let Ok((tag, n)) = dec_varint(s) {
            lemma_dec_varint_bounds(s.skip(n));
        }
    }
}

/// A whole envelope: its payload, or `MissingPayload` when none of the three
/// payload fields occurred.
pub open spec fn dec_entry(s: Seq<u8>) -> Result<EntryModel, DecodeError> {
    match dec_entry_fields(s, None) {
        Err(e) => Err(e),
        Ok(None) => Err(DecodeError::MissingPayload),
        Ok(Some(m)) => Ok(m),
    }
}

/// A decoded Event, fields as they stand on the wire (the pid still 64-bit,
/// the payload still unclassified).
pub struct WireEvent {
    pub timestamp: i64,
    pub uuid: String,
    pub src_ip: String,
    pub src_port: u32,
    pub dst_ip: String,
    pub dst_port: u32,
    pub pid: i64,
    pub pname: String,
    pub kind: u32,
    pub length: u32,
    pub payload: Vec<u8>,
}

impl View for WireEvent {
    type V = EventModel;

    open spec fn view(&self) -> EventModel {
        EventModel {
            timestamp: self.timestamp,
            uuid: self.uuid@,
            src_ip: self.src_ip@,
            src_port: self.src_port,
            dst_ip: self.dst_ip@,
            dst_port: self.dst_port,
            pid: self.pid,
            pname: self.pname@,
            kind: self.kind,
            length: self.length,
            payload: self.payload@,
        }
    }
}

/// A decoded Heartbeat, the count still 64-bit as on the wire.
pub struct WireHeartbeat {
    pub timestamp: i64,
    pub count: i64,
    pub message: String,
}

impl View for WireHeartbeat {
    type V = HeartbeatModel;

    open spec fn view(&self) -> HeartbeatModel {
        HeartbeatModel { timestamp: self.timestamp, count: self.count, message: self.message@ }
    }
}

/// The decoded payload of one envelope.
pub enum WireEntry {
    Event(WireEvent),
    Heartbeat(WireHeartbeat),
    RunLog(String),
}

impl View for WireEntry {
    type V = EntryModel;

    open spec fn view(&self) -> EntryModel {
        match self {
            WireEntry::Event(e) => EntryModel::Event(e@),
            WireEntry::Heartbeat(h) => EntryModel::Heartbeat(h@),
            WireEntry::RunLog(s) => EntryModel::RunLog(s@),
        }
    }
}

/// Relies on std's `String::from_utf8`: returns the string decoded from the
/// bytes exactly when they are valid UTF-8.
#[verifier::external_body]
pub(crate) fn utf8_to_string(v: &Vec<u8>) -> (r: Option<String>)
    ensures
        match r {
            Some(s) => valid_utf8(v@) && s@ == decode_utf8(v@),
            None => !valid_utf8(v@),
        },
{
    String::from_utf8(v.clone()).ok()
}

fn wire_event_default() -> (r: WireEvent)
    ensures
        r@ == event_default(),
{
    WireEvent {
        timestamp: 0,
        uuid: String::new(),
        src_ip: String::new(),
        src_port: 0,
        dst_ip: String::new(),
        dst_port: 0,
        pid: 0,
        pname: String::new(),
        kind: 0,
        length: 0,
        payload: Vec::new(),
    }
}

fn ev_apply_varint(acc: &mut WireEvent, field: u64, v: u64)
    ensures
        final(acc)@ == ev_set_varint(old(acc)@, field, v),
{
    if field == 1 {
        acc.timestamp = v as i64;
    } else if field == 4 {
        acc.src_port = v as u32;
    } else if field == 6 {
        acc.dst_port = v as u32;
    } else if field == 7 {
        acc.pid = v as i64;
    } else if field == 9 {
        acc.kind = v as u32;
    } else if field == 10 {
        acc.length = v as u32;
    }
}

fn ev_apply_len(acc: &mut WireEvent, field: u64, data: &[u8]) -> (r: Result<(), DecodeError>)
    ensures
        match r {
            Ok(u) => ev_set_len(old(acc)@, field, data@) == Ok::<EventModel, DecodeError>(
                final(acc)@,
            ),
            Err(e) => ev_set_len(old(acc)@, field, data@) == Err::<EventModel, DecodeError>(e),
        },
{
    if field == 2 || field == 3 || field == 5 || field == 8 {
        let owned = vstd::slice::slice_to_vec(data);
        match utf8_to_string(&owned) {
            Some(s) => {
                if field == 2 {
                    acc.uuid = s;
                } else if field == 3 {
                    acc.src_ip = s;
                } else if field == 5 {
                    acc.dst_ip = s;
                } else {
                    acc.pname = s;
                }
                Ok(())
            },
            None => Err(DecodeError::InvalidUtf8),
        }
    } else if field == 11 {
        acc.payload = vstd::slice::slice_to_vec(data);
        Ok(())
    } else {
        Ok(())
    }
}

/// Decode an Event message from `msg`.
pub fn parse_event(msg: &[u8]) -> (r: Result<WireEvent, DecodeError>)
    ensures
        match r {
            Ok(ev) => dec_event(msg@) == Ok::<EventModel, DecodeError>(ev@),
            Err(e) => dec_event(msg@) == Err::<EventModel, DecodeError>(e),
        },
{
    let mut acc = wire_event_default();
    let mut pos: usize = 0;
    assert(msg@.skip(0) =~= msg@);
    while pos < msg.len()
        invariant
            pos <= msg@.len(),
            dec_event_fields(msg@.skip(pos as int), acc@) == dec_event(msg@),
        decreases msg@.len() - pos,
    {
        let ghost s = msg@.skip(pos as int);
        let (tag, n) = match read_varint(msg, pos) {
            Ok(p) => p,
            Err(e) => {
                return Err(e);
            },
        };
        assert(s.skip(n as int) =~= msg@.skip(pos + n));
        if tag & 7 == 0 {
            let (v, m) = match read_varint(msg, pos + n) {
                Ok(p) => p,
                Err(e) => {
                    return Err(e);
                },
            };
            ev_apply_varint(&mut acc, tag >> 3u64, v);
            assert(s.skip(n + m) =~= msg@.skip(pos + n + m));
            pos = pos + n + m;
        } else if tag & 7 == 2 {
            let (l, m) = match read_varint(msg, pos + n) {
                Ok(p) => p,
                Err(e) => {
                    return Err(e);
                },
            };
            let start: usize = pos + n + m;
            let rem: usize = msg.len() - start;
            if l > rem as u64 {
                return Err(DecodeError::Truncated);
            }
            let data = vstd::slice::slice_subrange(msg, start, start + l as usize);
            assert(data@ =~= s.subrange(n + m, n + m + l));
            match ev_apply_len(&mut acc, tag >> 3u64, data) {
                Ok(u) => {},
                Err(e) => {
                    return Err(e);
                },
            }
            assert(s.skip(n + m + l) =~= msg@.skip(pos + n + m + l as usize));
            pos = start + l as usize;
        } else {
            return Err(DecodeError::InvalidWireType);
        }
    }
    assert(msg@.skip(pos as int).len() == 0);
    Ok(acc)
}

fn hb_apply_varint(acc: &mut WireHeartbeat, field: u64, v: u64)
    ensures
        final(acc)@ == hb_set_varint(old(acc)@, field, v),
{
    if field == 1 {
        acc.timestamp = v as i64;
    } else if field == 2 {
        acc.count = v as i64;
    }
}

/// Decode a Heartbeat message from `msg`.
pub fn parse_heartbeat(msg: &[u8]) -> (r: Result<WireHeartbeat, DecodeError>)
    ensures
        match r {
            Ok(hb) => dec_heartbeat(msg@) == Ok::<HeartbeatModel, DecodeError>(hb@),
            Err(e) => dec_heartbeat(msg@) == Err::<HeartbeatModel, DecodeError>(e),
        },
{
    let mut acc = WireHeartbeat { timestamp: 0, count: 0, message: String::new() };
    assert(acc@ == heartbeat_default());
    let mut pos: usize = 0;
    assert(msg@.skip(0) =~= msg@);
    while pos < msg.len()
        invariant
            pos <= msg@.len(),
            dec_heartbeat_fields(msg@.skip(pos as int), acc@) == dec_heartbeat(msg@),
        decreases msg@.len() - pos,
    {
        let ghost s = msg@.skip(pos as int);
        let (tag, n) = match read_varint(msg, pos) {
            Ok(p) => p,
            Err(e) => {
                return Err(e);
            },
        };
        assert(s.skip(n as int) =~= msg@.skip(pos + n));
        if tag & 7 == 0 {
            let (v, m) = match read_varint(msg, pos + n) {
                Ok(p) => p,
                Err(e) => {
                    return Err(e);
                },
            };
            hb_apply_varint(&mut acc, tag >> 3u64, v);
            assert(s.skip(n + m) =~= msg@.skip(pos + n + m));
            pos = pos + n + m;
        } else if tag & 7 == 2 {
            let (l, m) = match read_varint(msg, pos + n) {
                Ok(p) => p,
                Err(e) => {
                    return Err(e);
                },
            };
            let start: usize = pos + n + m;
            let rem: usize = msg.len() - start;
            if l > rem as u64 {
                return Err(DecodeError::Truncated);
            }
            let data = vstd::slice::slice_subrange(msg, start, start + l as usize);
            assert(data@ =~= s.subrange(n + m, n + m + l));
            if tag >> 3u64 == 3 {
                let owned = vstd::slice::slice_to_vec(data);
                match utf8_to_string(&owned) {
                    Some(text) => {
                        acc.message = text;
                    },
                    None => {
                        return Err(DecodeError::InvalidUtf8);
                    },
                }
            }
            assert(s.skip(n + m + l) =~= msg@.skip(pos + n + m + l as usize));
            pos = start + l as usize;
        } else {
            return Err(DecodeError::InvalidWireType);
        }
    }
    assert(msg@.skip(pos as int).len() == 0);
    Ok(acc)
}

/// The model of a partially decoded envelope.
pub open spec fn opt_entry_model(acc: Option<WireEntry>) -> Option<EntryModel> {
    match acc {
        Some(e) => Some(e@),
        None => None,
    }
}

/// Decode one envelope from `msg`: the payload it carries, or the first
/// decode error.
pub fn parse_entry(msg: &[u8]) -> (r: Result<WireEntry, DecodeError>)
    ensures
        match r {
            Ok(en) => dec_entry(msg@) == Ok::<EntryModel, DecodeError>(en@),
            Err(e) => dec_entry(msg@) == Err::<EntryModel, DecodeError>(e),
        },
{
    let mut acc: Option<WireEntry> = None;
    let mut pos: usize = 0;
    assert(msg@.skip(0) =~= msg@);
    while pos < msg.len()
        invariant
            pos <= msg@.len(),
            dec_entry_fields(msg@.skip(pos as int), opt_entry_model(acc)) == dec_entry_fields(
                msg@,
                None,
            ),
        decreases msg@.len() - pos,
    {
        let ghost s = msg@.skip(pos as int);
        let (tag, n) = match read_varint(msg, pos) {
            Ok(p) => p,
            Err(e) => {
                return Err(e);
            },
        };
        assert(s.skip(n as int) =~= msg@.skip(pos + n));
        if tag & 7 == 0 {
            let (v, m) = match read_varint(msg, pos + n) {
                Ok(p) => p,
                Err(e) => {
                    return Err(e);
                },
            };
            assert(s.skip(n + m) =~= msg@.skip(pos + n + m));
            pos = pos + n + m;
        } else if tag & 7 == 2 {
            let (l, m) = match read_varint(msg, pos + n) {
                Ok(p) => p,
                Err(e) => {
                    return Err(e);
                },
            };
            let start: usize = pos + n + m;
            let rem: usize = msg.len() - start;
            if l > rem as u64 {
                return Err(DecodeError::Truncated);
            }
            let data = vstd::slice::slice_subrange(msg, start, start + l as usize);
            assert(data@ =~= s.subrange(n + m, n + m + l));
            let field: u64 = tag >> 3u64;
            if field == 1 {
                match parse_event(data) {
                    Ok(ev) => {
                        acc = Some(WireEntry::Event(ev));
                    },
                    Err(e) => {
                        return Err(e);
                    },
                }
            } else if field == 2 {
                match parse_heartbeat(data) {
                    Ok(hb) => {
                        acc = Some(WireEntry::Heartbeat(hb));
                    },
                    Err(e) => {
                        return Err(e);
                    },
                }
            } else if field == 3 {
                let owned = vstd::slice::slice_to_vec(data);
                match utf8_to_string(&owned) {
                    Some(text) => {
                        acc = Some(WireEntry::RunLog(text));
                    },
                    None => {
                        return Err(DecodeError::InvalidUtf8);
                    },
                }
            }
            assert(s.skip(n + m + l) =~= msg@.skip(pos + n + m + l as usize));
            pos = start + l as usize;
        } else {
            return Err(DecodeError::InvalidWireType);
        }
    }
    assert(msg@.skip(pos as int).len() == 0);
    match acc {
        Some(entry) => Ok(entry),
        None => Err(DecodeError::MissingPayload),
    }
}

} // verus!
