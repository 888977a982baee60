//! The ingestion loop's decisions: decode each incoming message, accumulate
//! events into a bounded batch buffer, and flush when the count bound is hit
//! or the flush timer fires. The connection itself (the socket, the timer,
//! the biased shutdown check) belongs to the host; every decision the loop
//! makes is a method here.

use vstd::prelude::*;
use crate::decode::{self, spec_event_packet};
use crate::models::{DecodeError, HeartbeatMessage, PacketData, PacketModel, ParsedMessage, ProcessLogMessage};
use crate::session::RunState;
use crate::store::rows_view;
use crate::wire::EntryModel;

verus! {

/// The count bound of the batch buffer: a flush is triggered as soon as this
/// many events are buffered.
pub const BATCH_SIZE: usize = 20;

/// The time bound of the batch buffer, in milliseconds: the host's repeating
/// flush timer fires this often.
pub const FLUSH_TIMEOUT_MS: u64 = 300;

/// What the loop does with one incoming message.
pub enum IngestAction {
    /// The count bound was reached: hand this batch to the store actor now
    /// and reset the flush timer.
    Flush(Vec<PacketData>),
    /// The event was buffered, still below the count bound.
    Buffered,
    /// A heartbeat or process log was recorded; they are diagnostic only and
    /// never reach the table.
    Noted,
    /// The message could not be decoded: it is skipped, the connection and
    /// the already-buffered events are untouched.
    Skipped(DecodeError),
}

/// The in-memory state of the ingestion loop: the bounded batch buffer and
/// the diagnostic messages seen so far.
pub struct IngestionBuffer {
    buffer: Vec<PacketData>,
    heartbeats: Vec<HeartbeatMessage>,
    logs: Vec<ProcessLogMessage>,
}

impl IngestionBuffer {
    /// The models of the buffered events, oldest first.
    pub closed spec fn buffered(&self) -> Seq<PacketModel> {
        rows_view(self.buffer@)
    }

    /// How many heartbeats have been recorded.
    pub closed spec fn heartbeats_seen(&self) -> nat {
        self.heartbeats@.len()
    }

    /// How many process-log lines have been recorded.
    pub closed spec fn logs_seen(&self) -> nat {
        self.logs@.len()
    }

    /// The buffer never holds a full batch: a flush happens the moment the
    /// count bound is reached.
    pub open spec fn wf(&self) -> bool {
        self.buffered().len() < BATCH_SIZE
    }

    /// An empty buffer.
    pub fn new() -> (r: Self)
        ensures
            r.wf(),
            r.buffered().len() == 0,
            r.heartbeats_seen() == 0,
            r.logs_seen() == 0,
    {
        let r = IngestionBuffer { buffer: Vec::new(), heartbeats: Vec::new(), logs: Vec::new() };
        proof {
            assert(r.buffered() =~= Seq::<PacketModel>::empty());
        }
        r
    }

    /// Handle one raw message from the event source. A decode failure is
    /// skipped and loses nothing; an event is buffered, and the batch is
    /// handed back the moment the count bound is reached; heartbeats and
    /// process logs are only recorded. The buffered events always stay in
    /// arrival order.
    pub fn on_message(&mut self, bytes: &[u8]) -> (r: IngestAction)
        requires
            old(self).wf(),
        ensures
            final(self).wf(),
            match decode::spec_parse_eq_message(bytes@) {
                Err(e) => r == IngestAction::Skipped(e) && *final(self) == *old(self),
                Ok(m) => match m {
                    EntryModel::Event(e) => {
                        let p = spec_event_packet(e);
                        if old(self).buffered().len() + 1 == BATCH_SIZE {
                            r matches IngestAction::Flush(batch) && rows_view(batch@) == old(
                                self,
                            ).buffered().push(p) && final(self).buffered().len() == 0
                                && final(self).heartbeats_seen() == old(self).heartbeats_seen()
                                && final(self).logs_seen() == old(self).logs_seen()
                        } else {
                            r == IngestAction::Buffered && final(self).buffered() == old(
                                self,
                            ).buffered().push(p) && final(self).heartbeats_seen() == old(
                                self,
                            ).heartbeats_seen() && final(self).logs_seen() == old(self).logs_seen()
                        }
                    },
                    EntryModel::Heartbeat(h) => r == IngestAction::Noted && final(self).buffered()
                        == old(self).buffered() && final(self).heartbeats_seen() == old(
                        self,
                    ).heartbeats_seen() + 1 && final(self).logs_seen() == old(self).logs_seen(),
                    EntryModel::RunLog(s) => r == IngestAction::Noted && final(self).buffered()
                        == old(self).buffered() && final(self).logs_seen() == old(self).logs_seen()
                        + 1 && final(self).heartbeats_seen() == old(self).heartbeats_seen(),
                },
            },
    {
        match decode::parse_eq_message(bytes) {
            Err(e) => IngestAction::Skipped(e),
            Ok(ParsedMessage::Event(p)) => {
                let ghost b0 = self.buffer@;
                self.buffer.push(p);
                proof {
                    assert forall|i: int| 0 <= i < b0.len() implies self.buffer@[i] == b0[i] by {}
                    assert(self.buffered() =~= rows_view(b0).push(self.buffer@[b0.len() as int]@));
                }
                if self.buffer.len() >= BATCH_SIZE {
                    let mut batch: Vec<PacketData> = Vec::new();
                    core::mem::swap(&mut self.buffer, &mut batch);
                    proof {
                        assert(self.buffered() =~= Seq::<PacketModel>::empty());
                    }
                    IngestAction::Flush(batch)
                } else {
                    IngestAction::Buffered
                }
            },
            Ok(ParsedMessage::Heartbeat(h)) => {
                self.heartbeats.push(h);
                IngestAction::Noted
            },
            Ok(ParsedMessage::ProcessLog(l)) => {
                self.logs.push(l);
                IngestAction::Noted
            },
        }
    }

    /// Handle one tick of the flush timer: a non-empty buffer is flushed
    /// whole, an empty one leaves nothing to do.
    pub fn on_timer_tick(&mut self) -> (r: Option<Vec<PacketData>>)
        requires
            old(self).wf(),
        ensures
            final(self).wf(),
            final(self).heartbeats_seen() == old(self).heartbeats_seen(),
            final(self).logs_seen() == old(self).logs_seen(),
            match r {
                Some(batch) => old(self).buffered().len() > 0 && rows_view(batch@) == old(
                    self,
                ).buffered() && final(self).buffered().len() == 0,
                None => old(self).buffered().len() == 0 && *final(self) == *old(self),
            },
    {
        if self.buffer.len() == 0 {
            proof {
                assert(self.buffered().len() == 0);
            }
            None
        } else {
            let mut batch: Vec<PacketData> = Vec::new();
            core::mem::swap(&mut self.buffer, &mut batch);
            proof {
                assert(self.buffered() =~= Seq::<PacketModel>::empty());
            }
            Some(batch)
        }
    }
}

/// Whether the loop should reconnect after a connection or stream failure:
/// it retries with a short fixed backoff as long as the run state is still
/// capturing, and gives up otherwise.
pub fn should_retry(status: &RunState) -> (r: bool)
    ensures
        r == (*status is Capturing),
{
    match status {
        RunState::Capturing => true,
        RunState::NotCapturing => false,
    }
}

} // verus!
