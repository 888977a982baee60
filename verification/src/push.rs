//! The incremental push service: on each tick it queries the store for rows
//! newer than its cursor, forwards what came back, and advances the cursor
//! to the highest index delivered — never backward. The timer, the channels
//! and the output sink are the host's; every decision the service makes is a
//! method here.

use vstd::prelude::*;
use crate::models::{PacketDataFrontend, QueryError};
use crate::queries;
use crate::session::opt_str_view;

verus! {

/// The per-consumer state of the push service: its filter and its cursor.
/// Each independent consumer must own its own cursor; sharing one across
/// differently-filtered consumers loses rows.
pub struct PushService {
    user_sql: Option<String>,
    last_index: u64,
    topic: String,
}

impl PushService {
    /// The highest row index already delivered to this consumer.
    pub closed spec fn cursor(&self) -> u64 {
        self.last_index
    }

    /// The active filter: a full query or a bare predicate, or none.
    pub closed spec fn filter(&self) -> Option<Seq<char>> {
        opt_str_view(self.user_sql)
    }

    /// The name rows are emitted under at the output sink.
    pub closed spec fn topic_name(&self) -> Seq<char> {
        self.topic@
    }

    /// A new service with the given filter, starting cursor and sink topic.
    pub fn new(user_sql: Option<String>, last_index: u64, topic: String) -> (r: Self)
        ensures
            r.filter() == opt_str_view(user_sql),
            r.cursor() == last_index,
            r.topic_name() == topic@,
    {
        PushService { user_sql, last_index, topic }
    }

    /// The query text one poll issues, given the filter and the cursor.
    pub open spec fn spec_poll_sql(&self) -> Seq<char> {
        match self.filter() {
            Some(f) => queries::spec_customized_no_payload(self.cursor(), f),
            None => queries::spec_since_index_no_payload(self.cursor()),
        }
    }

    /// The query one poll tick issues: the fixed projection of all rows past
    /// the cursor, composed with the user filter when one is set.
    pub fn poll_sql(&self) -> (r: String)
        ensures
            r@ == self.spec_poll_sql(),
    {
        match &self.user_sql {
            Some(f) => queries::new_packets_customized_no_payload(&self.last_index, f.as_str()),
            None => queries::new_packets_since_index_no_payload(&self.last_index),
        }
    }

    /// Account one poll outcome: on success with at least one row, the rows
    /// are to be emitted and the cursor advances to the index of the last
    /// row returned — but only forward, never backward (the cursor query
    /// already excludes indices at or below it, so a well-behaved result
    /// always lies ahead; a result that does not cannot drag the cursor
    /// back). An empty result or a failure leaves the cursor exactly where
    /// it was and emits nothing.
    pub fn apply_poll(&mut self, outcome: &Result<Vec<PacketDataFrontend>, QueryError>) -> (emit:
        bool)
        ensures
            final(self).filter() == old(self).filter(),
            final(self).topic_name() == old(self).topic_name(),
            final(self).cursor() >= old(self).cursor(),
            match outcome {
                Ok(rows) => if rows@.len() > 0 {
                    emit && final(self).cursor() == (if rows@.last()@.index > old(self).cursor() {
                        rows@.last()@.index
                    } else {
                        old(self).cursor()
                    })
                } else {
                    !emit && final(self).cursor() == old(self).cursor()
                },
                Err(e) => !emit && final(self).cursor() == old(self).cursor(),
            },
    {
        match outcome {
            Ok(rows) => {
                if rows.len() > 0 {
                    let highest = rows[rows.len() - 1].index;
                    if highest > self.last_index {
                        self.last_index = highest;
                    }
                    true
                } else {
                    false
                }
            },
            Err(e) => false,
        }
    }

    /// Change the active filter: the cursor resets to zero, because a
    /// narrower filter may need to re-surface rows the wider one already
    /// consumed past.
    pub fn set_filter(&mut self, user_sql: Option<String>)
        ensures
            final(self).filter() == opt_str_view(user_sql),
            final(self).cursor() == 0,
            final(self).topic_name() == old(self).topic_name(),
    {
        self.user_sql = user_sql;
        self.last_index = 0;
    }
}

} // verus!
