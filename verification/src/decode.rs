//! Message decoding: from a raw wire payload to one of
//! {Event, Heartbeat, ProcessLog}, with saturating integer narrowing and
//! text/binary payload classification.

use vstd::prelude::*;
use vstd::utf8::{valid_utf8, decode_utf8};
use crate::models::{
    DecodeError, HeartbeatMessage, PacketData, PacketModel, ParsedMessage, ProcessLogMessage,
    spec_saturate_i32, saturate_i32,
};
use crate::wire::{self, EntryModel, EventModel, WireEntry, WireEvent, WireHeartbeat};

verus! {

/// How many bytes of a payload the text/binary classification inspects.
/// This bounds classification cost independent of payload size.
pub const CLASSIFY_PREFIX_LEN: usize = 100;

/// How many bytes a UTF-8 sequence starting with this byte takes: 0 marks a
/// byte that cannot begin a sequence (stray continuation bytes, the overlong
/// leading bytes 0xc0/0xc1, and leading bytes past 0xf4).
pub open spec fn utf8_width(b: u8) -> int {
    if b < 0x80 {
        1
    } else if 0xc2 <= b && b <= 0xdf {
        2
    } else if 0xe0 <= b && b <= 0xef {
        3
    } else if 0xf0 <= b && b <= 0xf4 {
        4
    } else {
        0
    }
}

/// Allowed range of the second byte of a multi-byte sequence; the four
/// special leading bytes restrict it further than the plain continuation
/// range, ruling out overlong encodings, surrogates, and values past the
/// last Unicode scalar.
pub open spec fn utf8_second_ok(b: u8, c: u8) -> bool {
    if b == 0xe0 {
        0xa0 <= c && c <= 0xbf
    } else if b == 0xed {
        0x80 <= c && c <= 0x9f
    } else if b == 0xf0 {
        0x90 <= c && c <= 0xbf
    } else if b == 0xf4 {
        0x80 <= c && c <= 0x8f
    } else {
        0x80 <= c && c <= 0xbf
    }
}

/// A plain continuation byte.
pub open spec fn utf8_cont(c: u8) -> bool {
    0x80 <= c && c <= 0xbf
}

/// True when `s` is a sequence of well-formed UTF-8 scalars, except that the
/// last one may be cut off, provided every byte of it that is present is
/// acceptable at its position.
pub open spec fn text_prefix_ok(s: Seq<u8>) -> bool
    decreases s.len(),
{
    if s.len() == 0 {
        true
    } else {
        let w = utf8_width(s[0]);
        if w == 0 {
            false
        } else if s.len() < w {
            (s.len() < 2 || utf8_second_ok(s[0], s[1])) && (s.len() < 3 || utf8_cont(s[2]))
        } else {
            (w < 2 || utf8_second_ok(s[0], s[1])) && (w < 3 || utf8_cont(s[2])) && (w < 4
                || utf8_cont(s[3])) && text_prefix_ok(s.skip(w))
        }
    }
}

/// The classification window: the first `CLASSIFY_PREFIX_LEN` bytes, or all
/// of them when there are fewer.
pub open spec fn classify_window(payload: Seq<u8>) -> Seq<u8> {
    if payload.len() <= CLASSIFY_PREFIX_LEN {
        payload
    } else {
        payload.take(CLASSIFY_PREFIX_LEN as int)
    }
}

/// A payload is stored as binary unless its classification window reads as
/// text and the whole payload is valid UTF-8.
pub open spec fn spec_is_binary(payload: Seq<u8>) -> bool {
    !(text_prefix_ok(classify_window(payload)) && valid_utf8(payload))
}

/// Whether the window (up to the first 100 bytes) of `data` decodes as valid
/// text, allowing one valid-but-truncated multi-byte sequence at the very
/// end.
pub fn is_utf8_prefix(data: &[u8]) -> (r: bool)
    ensures
        r == text_prefix_ok(classify_window(data@)),
{
    let n: usize = if data.len() < CLASSIFY_PREFIX_LEN {
        data.len()
    } else {
        CLASSIFY_PREFIX_LEN
    };
    let ghost p = classify_window(data@);
    assert(p.len() == n);
    assert(forall|i: int| 0 <= i < n ==> p[i] == data@[i]);
    let mut pos: usize = 0;
    assert(p.skip(0) =~= p);
    while pos < n
        invariant
            p == classify_window(data@),
            pos <= n == p.len() <= data@.len(),
            forall|i: int| 0 <= i < n ==> p[i] == data@[i],
            text_prefix_ok(p.skip(pos as int)) == text_prefix_ok(p),
        decreases n - pos,
    {
        let ghost s = p.skip(pos as int);
        let b = data[pos];
        assert(s[0] == b);
        let w: usize = if b < 0x80 {
            1
        } else if 0xc2 <= b && b <= 0xdf {
            2
        } else if 0xe0 <= b && b <= 0xef {
            3
        } else if 0xf0 <= b && b <= 0xf4 {
            4
        } else {
            0
        };
        if w == 0 {
            return false;
        }
        if n - pos < w {
            // the window ends inside this sequence: accept exactly when every
            // present byte is acceptable at its position
            if n - pos >= 2 {
                let c = data[pos + 1];
                assert(s[1] == c);
                if !second_byte_ok(b, c) {
                    return false;
                }
            }
            if n - pos >= 3 {
                let d = data[pos + 2];
                assert(s[2] == d);
                if !(0x80 <= d && d <= 0xbf) {
                    return false;
                }
            }
            return true;
        }
        if w >= 2 {
            let c = data[pos + 1];
            assert(s[1] == c);
            if !second_byte_ok(b, c) {
                return false;
            }
        }
        if w >= 3 {
            let d = data[pos + 2];
            assert(s[2] == d);
            if !(0x80 <= d && d <= 0xbf) {
                return false;
            }
        }
        if w >= 4 {
            let e = data[pos + 3];
            assert(s[3] == e);
            if !(0x80 <= e && e <= 0xbf) {
                return false;
            }
        }
        assert(s.skip(w as int) =~= p.skip(pos + w));
        pos = pos + w;
    }
    assert(p.skip(pos as int).len() == 0);
    true
}

/// Second byte of a multi-byte sequence, checked against the range its
/// leading byte allows.
fn second_byte_ok(b: u8, c: u8) -> (r: bool)
    ensures
        r == utf8_second_ok(b, c),
{
    if b == 0xe0 {
        0xa0 <= c && c <= 0xbf
    } else if b == 0xed {
        0x80 <= c && c <= 0x9f
    } else if b == 0xf0 {
        0x90 <= c && c <= 0xbf
    } else if b == 0xf4 {
        0x80 <= c && c <= 0x8f
    } else {
        0x80 <= c && c <= 0xbf
    }
}

/// The record a decoded Event turns into: the index still unassigned, the
/// pid saturated to 32 bits, and the payload stored in exactly one of the
/// two payload fields according to the classification.
pub open spec fn spec_event_packet(e: EventModel) -> PacketModel {
    PacketModel {
        index: 0,
        timestamp: e.timestamp,
        uuid: e.uuid,
        src_ip: e.src_ip,
        src_port: e.src_port,
        dst_ip: e.dst_ip,
        dst_port: e.dst_port,
        pid: spec_saturate_i32(e.pid),
        pname: e.pname,
        kind: e.kind,
        length: e.length,
        is_binary: spec_is_binary(e.payload),
        payload_utf8: if spec_is_binary(e.payload) {
            Seq::empty()
        } else {
            decode_utf8(e.payload)
        },
        payload_binary: if spec_is_binary(e.payload) {
            e.payload
        } else {
            Seq::empty()
        },
    }
}

/// A non-empty valid UTF-8 byte sequence decodes to at least one character,
/// so a textual payload of non-zero length never stores an empty string.
pub proof fn lemma_nonempty_decode(bytes: Seq<u8>)
    requires
        valid_utf8(bytes),
        bytes.len() > 0,
    ensures
        decode_utf8(bytes).len() > 0,
{
}

/// Law: payload exclusivity. For every event of non-zero payload length, the
/// stored record has a non-empty text payload or a non-empty binary payload,
/// never both and never neither; and the populated side is the one the
/// classification chose.
pub proof fn lemma_payload_exclusivity(e: EventModel)
    requires
        e.payload.len() > 0,
    ensures
        (spec_event_packet(e).payload_utf8.len() > 0) != (spec_event_packet(e).payload_binary.len()
            > 0),
        spec_event_packet(e).is_binary <==> spec_event_packet(e).payload_binary.len() > 0,
{
    if !spec_is_binary(e.payload) {
        lemma_nonempty_decode(e.payload);
    }
}

/// Convert a decoded Event into a record: saturate the pid, classify the
/// payload, and store it on exactly one side. The payload is never lost:
/// a record of non-zero payload has a non-empty text payload exactly when it
/// is textual, and a non-empty binary payload exactly when it is binary.
pub fn pb_event_to_packet(ev: WireEvent) -> (r: PacketData)
    ensures
        r@ == spec_event_packet(ev@),
        ev.payload@.len() > 0 ==> ((r.payload_utf8@.len() > 0 <==> !r.is_binary) && (
        r.payload_binary@.len() > 0 <==> r.is_binary)),
{
    let is_text_prefix = is_utf8_prefix(ev.payload.as_slice());
    let (is_binary, payload_utf8, payload_binary): (bool, String, Vec<u8>) = if !is_text_prefix {
        (true, String::new(), ev.payload)
    } else {
        match wire::utf8_to_string(&ev.payload) {
            Some(text) => (false, text, Vec::new()),
            None => {
                // the window read as text but the full payload does not
                // decode: fall back to binary
                (true, String::new(), ev.payload)
            },
        }
    };
    proof {
        if ev.payload@.len() > 0 && !is_binary {
            lemma_nonempty_decode(ev.payload@);
        }
    }
    PacketData {
        index: 0,
        timestamp: ev.timestamp,
        uuid: ev.uuid,
        src_ip: ev.src_ip,
        src_port: ev.src_port,
        dst_ip: ev.dst_ip,
        dst_port: ev.dst_port,
        pid: saturate_i32(ev.pid),
        pname: ev.pname,
        kind: ev.kind,
        length: ev.length,
        is_binary,
        payload_utf8,
        payload_binary,
    }
}

/// Convert a decoded Heartbeat, saturating the count to 32 bits.
pub fn pb_heartbeat_to_model(hb: WireHeartbeat) -> (r: HeartbeatMessage)
    ensures
        r.timestamp == hb.timestamp,
        r.count == spec_saturate_i32(hb.count),
        r.message@ == hb.message@,
{
    HeartbeatMessage { timestamp: hb.timestamp, count: saturate_i32(hb.count), message: hb.message }
}

/// What a raw wire payload decodes to, message model to parsed model.
pub open spec fn spec_parse_eq_message(bytes: Seq<u8>) -> Result<EntryModel, DecodeError> {
    wire::dec_entry(bytes)
}

/// Decode one raw wire payload into a tagged message, or fail with the
/// decode error. Failure is always local to one message: this function has
/// no side effects.
pub fn parse_eq_message(bytes: &[u8]) -> (r: Result<ParsedMessage, DecodeError>)
    ensures
        match spec_parse_eq_message(bytes@) {
            Ok(m) => match m {
                EntryModel::Event(e) => r matches Ok(ParsedMessage::Event(p)) && p@
                    == spec_event_packet(e),
                EntryModel::Heartbeat(h) => r matches Ok(ParsedMessage::Heartbeat(hm))
                    && hm.timestamp == h.timestamp && hm.count == spec_saturate_i32(h.count)
                    && hm.message@ == h.message,
                EntryModel::RunLog(s) => r matches Ok(ParsedMessage::ProcessLog(pl))
                    && pl.log_info@ == s,
            },
            Err(e) => r matches Err(e2) && e2 == e,
        },
{
    match wire::parse_entry(bytes) {
        Ok(WireEntry::Event(ev)) => Ok(ParsedMessage::Event(pb_event_to_packet(ev))),
        Ok(WireEntry::Heartbeat(hb)) => Ok(ParsedMessage::Heartbeat(pb_heartbeat_to_model(hb))),
        Ok(WireEntry::RunLog(text)) => Ok(
            ParsedMessage::ProcessLog(ProcessLogMessage { log_info: text }),
        ),
        Err(e) => Err(e),
    }
}

} // verus!
