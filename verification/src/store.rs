//! The store actor's state: exclusive owner of the append-only table of
//! records. It assigns the strictly monotonic row index, appends batches in
//! arrival order, and answers relational queries against a snapshot.
//!
//! The actor keeps two forms of the table in step: the rows themselves (the
//! verified model, the source of truth) and the engine's columnar table,
//! extended per batch and snapshot-copied per query. The surrounding event
//! loop (channels, the biased shutdown check) is the host's; every mutation
//! and query funnels through the methods here.

use vstd::prelude::*;
use polars::prelude::DataFrame;
use crate::models::{PacketData, PacketDataFrontend, PacketModel, QueryError};
use crate::queries;
use crate::table::{
    CellValue, build_table_df, capture_cols, cols_vstacked, df_cols, df_vstack,
    df_to_packet_data_frontend_vec, df_to_packet_data_vec, polars_err_message, run_table_sql,
    strs_view, bins_view, clone_bytes,
};

verus! {

/// One request to the store actor: append a batch, or answer a query. The
/// host pairs a query with a one-shot response channel; the decision logic
/// here needs only the query text.
pub enum ActorMessage {
    UpdateBatch(Vec<PacketData>),
    QuerySql { sql: String },
}

/// `p` with its index slot replaced.
pub open spec fn stamped(p: PacketModel, idx: u64) -> PacketModel {
    PacketModel { index: idx, ..p }
}

/// The models of a sequence of records.
pub open spec fn rows_view(rows: Seq<PacketData>) -> Seq<PacketModel> {
    rows.map_values(|p: PacketData| p@)
}

/// Every stored row carries exactly its position as its index: rows are
/// physically ordered by ascending index, with no gaps or repeats.
pub open spec fn wf_rows(rows: Seq<PacketModel>) -> bool {
    forall|i: int| 0 <= i < rows.len() ==> rows[i].index == i
}

/// A copy of a record with the same field values.
pub fn clone_packet(p: &PacketData) -> (r: PacketData)
    ensures
        r@ == p@,
{
    PacketData {
        index: p.index,
        timestamp: p.timestamp,
        uuid: p.uuid.clone(),
        src_ip: p.src_ip.clone(),
        src_port: p.src_port,
        dst_ip: p.dst_ip.clone(),
        dst_port: p.dst_port,
        pid: p.pid,
        pname: p.pname.clone(),
        kind: p.kind,
        length: p.length,
        is_binary: p.is_binary,
        payload_utf8: p.payload_utf8.clone(),
        payload_binary: clone_bytes(&p.payload_binary),
    }
}

/// Append a batch to the table: each record is stamped with the next index
/// in arrival order, existing rows are never touched. No-op on empty input.
/// Work is proportional to the batch, never to the table.
pub fn write_batch_to_df(buffer: &[PacketData], df: &mut Vec<PacketData>, next_index: &mut u64)
    requires
        *old(next_index) + buffer@.len() <= u64::MAX,
    ensures
        *final(next_index) == *old(next_index) + buffer@.len(),
        final(df)@.len() == old(df)@.len() + buffer@.len(),
        forall|i: int| 0 <= i < old(df)@.len() ==> final(df)@[i] == old(df)@[i],
        forall|k: int|
            0 <= k < buffer@.len() ==> final(df)@[old(df)@.len() + k]@ == stamped(
                buffer@[k]@,
                (*old(next_index) + k) as u64,
            ),
{
    let ghost d0 = df@;
    let ghost n0 = *next_index;
    let mut k: usize = 0;
    while k < buffer.len()
        invariant
            k <= buffer@.len(),
            n0 + buffer@.len() <= u64::MAX,
            *next_index == n0 + k,
            df@.len() == d0.len() + k,
            forall|i: int| 0 <= i < d0.len() ==> df@[i] == d0[i],
            forall|j: int|
                0 <= j < k ==> df@[d0.len() + j]@ == stamped(buffer@[j]@, (n0 + j) as u64),
        decreases buffer@.len() - k,
    {
        let mut rec = clone_packet(&buffer[k]);
        rec.index = *next_index;
        df.push(rec);
        *next_index = *next_index + 1;
        k = k + 1;
    }
}

/// The column layout of the whole stored table.
pub open spec fn table_cols_of(rows: Seq<PacketModel>) -> Seq<(Seq<char>, Seq<CellValue>)> {
    capture_cols(
        rows.map_values(|p: PacketModel| p.index),
        rows.map_values(|p: PacketModel| p.timestamp),
        rows.map_values(|p: PacketModel| p.uuid),
        rows.map_values(|p: PacketModel| p.src_ip),
        rows.map_values(|p: PacketModel| p.src_port),
        rows.map_values(|p: PacketModel| p.dst_ip),
        rows.map_values(|p: PacketModel| p.dst_port),
        rows.map_values(|p: PacketModel| p.pid),
        rows.map_values(|p: PacketModel| p.pname),
        rows.map_values(|p: PacketModel| p.kind),
        rows.map_values(|p: PacketModel| p.length),
        rows.map_values(|p: PacketModel| p.is_binary),
        rows.map_values(|p: PacketModel| p.payload_utf8),
        rows.map_values(|p: PacketModel| p.payload_binary),
    )
}

/// Mapping a concatenation maps each part.
proof fn lemma_map_values_concat<A, B>(a: Seq<A>, b: Seq<A>, f: spec_fn(A) -> B)
    ensures
        (a + b).map_values(f) == a.map_values(f) + b.map_values(f),
{
    assert((a + b).map_values(f) =~= a.map_values(f) + b.map_values(f));
}

/// Stacking the column layouts of two row sequences gives the layout of
/// their concatenation.
proof fn lemma_table_cols_concat(a: Seq<PacketModel>, b: Seq<PacketModel>)
    ensures
        cols_vstacked(table_cols_of(a), table_cols_of(b)) == table_cols_of(a + b),
{
    lemma_map_values_concat(a, b, |p: PacketModel| p.index);
    lemma_map_values_concat(a, b, |p: PacketModel| p.timestamp);
    lemma_map_values_concat(a, b, |p: PacketModel| p.uuid);
    lemma_map_values_concat(a, b, |p: PacketModel| p.src_ip);
    lemma_map_values_concat(a, b, |p: PacketModel| p.src_port);
    lemma_map_values_concat(a, b, |p: PacketModel| p.dst_ip);
    lemma_map_values_concat(a, b, |p: PacketModel| p.dst_port);
    lemma_map_values_concat(a, b, |p: PacketModel| p.pid);
    lemma_map_values_concat(a, b, |p: PacketModel| p.pname);
    lemma_map_values_concat(a, b, |p: PacketModel| p.kind);
    lemma_map_values_concat(a, b, |p: PacketModel| p.length);
    lemma_map_values_concat(a, b, |p: PacketModel| p.is_binary);
    lemma_map_values_concat(a, b, |p: PacketModel| p.payload_utf8);
    lemma_map_values_concat(a, b, |p: PacketModel| p.payload_binary);
    lemma_map_values_concat(
        a.map_values(|p: PacketModel| p.index),
        b.map_values(|p: PacketModel| p.index),
        |x: u64| CellValue::U64(x),
    );
    lemma_map_values_concat(
        a.map_values(|p: PacketModel| p.timestamp),
        b.map_values(|p: PacketModel| p.timestamp),
        |x: i64| CellValue::I64(x),
    );
    lemma_map_values_concat(
        a.map_values(|p: PacketModel| p.uuid),
        b.map_values(|p: PacketModel| p.uuid),
        |x: Seq<char>| CellValue::Text(x),
    );
    lemma_map_values_concat(
        a.map_values(|p: PacketModel| p.src_ip),
        b.map_values(|p: PacketModel| p.src_ip),
        |x: Seq<char>| CellValue::Text(x),
    );
    lemma_map_values_concat(
        a.map_values(|p: PacketModel| p.src_port),
        b.map_values(|p: PacketModel| p.src_port),
        |x: u32| CellValue::U32(x),
    );
    lemma_map_values_concat(
        a.map_values(|p: PacketModel| p.dst_ip),
        b.map_values(|p: PacketModel| p.dst_ip),
        |x: Seq<char>| CellValue::Text(x),
    );
    lemma_map_values_concat(
        a.map_values(|p: PacketModel| p.dst_port),
        b.map_values(|p: PacketModel| p.dst_port),
        |x: u32| CellValue::U32(x),
    );
    lemma_map_values_concat(
        a.map_values(|p: PacketModel| p.pid),
        b.map_values(|p: PacketModel| p.pid),
        |x: i32| CellValue::I32(x),
    );
    lemma_map_values_concat(
        a.map_values(|p: PacketModel| p.pname),
        b.map_values(|p: PacketModel| p.pname),
        |x: Seq<char>| CellValue::Text(x),
    );
    lemma_map_values_concat(
        a.map_values(|p: PacketModel| p.kind),
        b.map_values(|p: PacketModel| p.kind),
        |x: u32| CellValue::U32(x),
    );
    lemma_map_values_concat(
        a.map_values(|p: PacketModel| p.length),
        b.map_values(|p: PacketModel| p.length),
        |x: u32| CellValue::U32(x),
    );
    lemma_map_values_concat(
        a.map_values(|p: PacketModel| p.is_binary),
        b.map_values(|p: PacketModel| p.is_binary),
        |x: bool| CellValue::Bool(x),
    );
    lemma_map_values_concat(
        a.map_values(|p: PacketModel| p.payload_utf8),
        b.map_values(|p: PacketModel| p.payload_utf8),
        |x: Seq<char>| CellValue::Text(x),
    );
    lemma_map_values_concat(
        a.map_values(|p: PacketModel| p.payload_binary),
        b.map_values(|p: PacketModel| p.payload_binary),
        |x: Seq<u8>| CellValue::Bin(x),
    );
    assert(cols_vstacked(table_cols_of(a), table_cols_of(b)) =~= table_cols_of(a + b));
}

/// The engine's table built from these records: one typed column per field.
/// Work is proportional to the records given.
fn rows_to_df(rows: &Vec<PacketData>) -> (df: DataFrame)
    ensures
        df_cols(df) == table_cols_of(rows_view(rows@)),
{
    let n = rows.len();
    let mut idx: Vec<u64> = Vec::new();
    let mut ts: Vec<i64> = Vec::new();
    let mut uuid: Vec<String> = Vec::new();
    let mut sip: Vec<String> = Vec::new();
    let mut sport: Vec<u32> = Vec::new();
    let mut dip: Vec<String> = Vec::new();
    let mut dport: Vec<u32> = Vec::new();
    let mut pid: Vec<i32> = Vec::new();
    let mut pname: Vec<String> = Vec::new();
    let mut kind: Vec<u32> = Vec::new();
    let mut length: Vec<u32> = Vec::new();
    let mut isb: Vec<bool> = Vec::new();
    let mut ptxt: Vec<String> = Vec::new();
    let mut pbin: Vec<Vec<u8>> = Vec::new();
    let mut k: usize = 0;
    while k < n
        invariant
            k <= n == rows@.len(),
            idx@.len() == k && ts@.len() == k && uuid@.len() == k && sip@.len() == k
                && sport@.len() == k && dip@.len() == k && dport@.len() == k && pid@.len() == k
                && pname@.len() == k && kind@.len() == k && length@.len() == k && isb@.len() == k
                && ptxt@.len() == k && pbin@.len() == k,
            forall|j: int| 0 <= j < k ==> #[trigger] idx@[j] == rows@[j]@.index,
            forall|j: int| 0 <= j < k ==> #[trigger] ts@[j] == rows@[j]@.timestamp,
            forall|j: int| 0 <= j < k ==> #[trigger] uuid@[j]@ == rows@[j]@.uuid,
            forall|j: int| 0 <= j < k ==> #[trigger] sip@[j]@ == rows@[j]@.src_ip,
            forall|j: int| 0 <= j < k ==> #[trigger] sport@[j] == rows@[j]@.src_port,
            forall|j: int| 0 <= j < k ==> #[trigger] dip@[j]@ == rows@[j]@.dst_ip,
            forall|j: int| 0 <= j < k ==> #[trigger] dport@[j] == rows@[j]@.dst_port,
            forall|j: int| 0 <= j < k ==> #[trigger] pid@[j] == rows@[j]@.pid,
            forall|j: int| 0 <= j < k ==> #[trigger] pname@[j]@ == rows@[j]@.pname,
            forall|j: int| 0 <= j < k ==> #[trigger] kind@[j] == rows@[j]@.kind,
            forall|j: int| 0 <= j < k ==> #[trigger] length@[j] == rows@[j]@.length,
            forall|j: int| 0 <= j < k ==> #[trigger] isb@[j] == rows@[j]@.is_binary,
            forall|j: int| 0 <= j < k ==> #[trigger] ptxt@[j]@ == rows@[j]@.payload_utf8,
            forall|j: int| 0 <= j < k ==> #[trigger] pbin@[j]@ == rows@[j]@.payload_binary,
        decreases n - k,
    {
        let p = &rows[k];
        idx.push(p.index);
        ts.push(p.timestamp);
        uuid.push(p.uuid.clone());
        sip.push(p.src_ip.clone());
        sport.push(p.src_port);
        dip.push(p.dst_ip.clone());
        dport.push(p.dst_port);
        pid.push(p.pid);
        pname.push(p.pname.clone());
        kind.push(p.kind);
        length.push(p.length);
        isb.push(p.is_binary);
        ptxt.push(p.payload_utf8.clone());
        pbin.push(clone_bytes(&p.payload_binary));
        k = k + 1;
    }
    proof {
        let rm = rows_view(rows@);
        assert(idx@ =~= rm.map_values(|p: PacketModel| p.index));
        assert(ts@ =~= rm.map_values(|p: PacketModel| p.timestamp));
        assert forall|j: int| 0 <= j < n implies strs_view(uuid@)[j] == rm.map_values(
            |p: PacketModel| p.uuid,
        )[j] by {
            assert(strs_view(uuid@)[j] == uuid@[j]@);
            assert(rm.map_values(|p: PacketModel| p.uuid)[j] == rm[j].uuid);
        }
        assert(strs_view(uuid@) =~= rm.map_values(|p: PacketModel| p.uuid));
        assert forall|j: int| 0 <= j < n implies strs_view(sip@)[j] == rm.map_values(
            |p: PacketModel| p.src_ip,
        )[j] by {
            assert(strs_view(sip@)[j] == sip@[j]@);
            assert(rm.map_values(|p: PacketModel| p.src_ip)[j] == rm[j].src_ip);
        }
        assert(strs_view(sip@) =~= rm.map_values(|p: PacketModel| p.src_ip));
        assert(sport@ =~= rm.map_values(|p: PacketModel| p.src_port));
        assert forall|j: int| 0 <= j < n implies strs_view(dip@)[j] == rm.map_values(
            |p: PacketModel| p.dst_ip,
        )[j] by {
            assert(strs_view(dip@)[j] == dip@[j]@);
            assert(rm.map_values(|p: PacketModel| p.dst_ip)[j] == rm[j].dst_ip);
        }
        assert(strs_view(dip@) =~= rm.map_values(|p: PacketModel| p.dst_ip));
        assert(dport@ =~= rm.map_values(|p: PacketModel| p.dst_port));
        assert(pid@ =~= rm.map_values(|p: PacketModel| p.pid));
        assert forall|j: int| 0 <= j < n implies strs_view(pname@)[j] == rm.map_values(
            |p: PacketModel| p.pname,
        )[j] by {
            assert(strs_view(pname@)[j] == pname@[j]@);
            assert(rm.map_values(|p: PacketModel| p.pname)[j] == rm[j].pname);
        }
        assert(strs_view(pname@) =~= rm.map_values(|p: PacketModel| p.pname));
        assert(kind@ =~= rm.map_values(|p: PacketModel| p.kind));
        assert(length@ =~= rm.map_values(|p: PacketModel| p.length));
        assert(isb@ =~= rm.map_values(|p: PacketModel| p.is_binary));
        assert forall|j: int| 0 <= j < n implies strs_view(ptxt@)[j] == rm.map_values(
            |p: PacketModel| p.payload_utf8,
        )[j] by {
            assert(strs_view(ptxt@)[j] == ptxt@[j]@);
            assert(rm.map_values(|p: PacketModel| p.payload_utf8)[j] == rm[j].payload_utf8);
        }
        assert(strs_view(ptxt@) =~= rm.map_values(|p: PacketModel| p.payload_utf8));
        assert forall|j: int| 0 <= j < n implies bins_view(pbin@)[j] == rm.map_values(
            |p: PacketModel| p.payload_binary,
        )[j] by {
            assert(bins_view(pbin@)[j] == pbin@[j]@);
            assert(rm.map_values(|p: PacketModel| p.payload_binary)[j] == rm[j].payload_binary);
        }
        assert(bins_view(pbin@) =~= rm.map_values(|p: PacketModel| p.payload_binary));
    }
    match build_table_df(
        idx,
        ts,
        uuid,
        sip,
        sport,
        dip,
        dport,
        pid,
        pname,
        kind,
        length,
        isb,
        ptxt,
        pbin,
    ) {
        Ok(df) => df,
        Err(_) => vstd::pervasive::unreached(),
    }
}

/// The exclusive owner of the table: all appends and queries go through it,
/// which is what serializes mutation against concurrent readers.
pub struct DataFrameActor {
    rows: Vec<PacketData>,
    df: DataFrame,
    next_index: u64,
}

impl DataFrameActor {
    /// The models of the stored rows, in table order.
    pub closed spec fn rows_model(&self) -> Seq<PacketModel> {
        rows_view(self.rows@)
    }

    /// The index the next appended record will receive.
    pub closed spec fn next(&self) -> u64 {
        self.next_index
    }

    /// The actor's invariant: the next index is the table height; every row's
    /// index is exactly its position — the indices ever assigned are exactly
    /// 0, 1, …, N-1, with no gaps or repeats; and the engine's columnar table
    /// holds exactly the stored rows.
    pub closed spec fn wf(&self) -> bool {
        &&& self.next() == self.rows_model().len()
        &&& wf_rows(self.rows_model())
        &&& df_cols(self.df) == table_cols_of(self.rows_model())
    }

    /// A new actor owning an empty table; the first record gets index 0.
    pub fn new() -> (r: Self)
        ensures
            r.wf(),
            r.rows_model().len() == 0,
            r.next() == 0,
    {
        let df = create_capture_df();
        let r = DataFrameActor { rows: Vec::new(), df, next_index: 0 };
        proof {
            assert(r.rows_model() =~= Seq::<PacketModel>::empty());
        }
        r
    }

    /// Append a batch: the records are stamped `next, next+1, …` in arrival
    /// order and added after the existing rows, which stay untouched. The
    /// engine's table is extended by the same batch, O(batch) work.
    pub fn update_batch(&mut self, batch: Vec<PacketData>)
        requires
            old(self).wf(),
            old(self).rows_model().len() + batch@.len() <= u64::MAX,
        ensures
            final(self).wf(),
            final(self).rows_model().len() == old(self).rows_model().len() + batch@.len(),
            final(self).next() == old(self).next() + batch@.len(),
            forall|i: int|
                0 <= i < old(self).rows_model().len() ==> final(self).rows_model()[i] == old(
                    self,
                ).rows_model()[i],
            forall|k: int|
                0 <= k < batch@.len() ==> final(self).rows_model()[old(self).rows_model().len()
                    + k] == stamped(batch@[k]@, (old(self).next() + k) as u64),
    {
        let ghost r0 = self.rows@;
        let ghost n0 = self.next_index;
        let mut stamped_batch: Vec<PacketData> = Vec::new();
        write_batch_to_df(batch.as_slice(), &mut stamped_batch, &mut self.next_index);
        let ghost sm = stamped_batch@;
        let batch_df = rows_to_df(&stamped_batch);
        let appended = df_vstack(&mut self.df, &batch_df);
        self.rows.append(&mut stamped_batch);
        proof {
            assert(self.rows@ == r0 + sm);
            assert(rows_view(r0 + sm) =~= rows_view(r0) + rows_view(sm)) by {
                lemma_map_values_concat(r0, sm, |p: PacketData| p@);
            }
            assert(old(self).rows_model() == rows_view(r0));
            assert forall|k: int| 0 <= k < batch@.len() implies rows_view(sm)[k] == stamped(
                batch@[k]@,
                (n0 + k) as u64,
            ) by {
                assert(sm[k]@ == stamped(batch@[k]@, (n0 + k) as u64));
                assert(rows_view(sm)[k] == sm[k]@);
            }
            assert forall|i: int| 0 <= i < self.rows_model().len() implies #[trigger] self.rows_model()[i].index
                == i by {
                if i < r0.len() {
                    assert(self.rows_model()[i] == rows_view(r0)[i]);
                } else {
                    assert(self.rows_model()[i] == rows_view(sm)[i - r0.len()]);
                }
            }
        }
        if appended.is_err() {
            // two tables of the fixed schema always stack, but a failed stack
            // may leave the engine's table partially extended: rebuild it
            // from the rows
            self.df = rows_to_df(&self.rows);
        } else {
            proof {
                assert(table_cols_of(rows_view(r0)).len() == 14);
                lemma_table_cols_concat(rows_view(r0), rows_view(sm));
            }
        }
    }

    /// Run a query against a snapshot of the table, bound under the fixed
    /// relation name, and return the full rows of its result. The engine
    /// decides success and content: an engine rejection surfaces as `Engine`
    /// with its message, a result without the full column set as `BadShape`,
    /// and the conversion of an accepted result is fixed, value by value, by
    /// `df_to_packet_data_vec`.
    pub fn query_sql(&self, sql: &str) -> (r: Result<Vec<PacketData>, QueryError>) {
        match run_table_sql(&self.df, "packets", sql) {
            Ok(out) => df_to_packet_data_vec(&out),
            Err(e) => Err(QueryError::Engine(polars_err_message(&e))),
        }
    }

    /// Run a query against a snapshot of the table and return the
    /// payload-free rows of its result, under the same conditions as
    /// `query_sql` with the fixed projection (the conversion is fixed by
    /// `df_to_packet_data_frontend_vec`).
    pub fn query_sql_no_payload(&self, sql: &str) -> (r: Result<
        Vec<PacketDataFrontend>,
        QueryError,
    >) {
        match run_table_sql(&self.df, "packets", sql) {
            Ok(out) => df_to_packet_data_frontend_vec(&out),
            Err(e) => Err(QueryError::Engine(polars_err_message(&e))),
        }
    }

    /// All rows newer than the cursor, without payload columns, in index
    /// order: the query handed to the engine is exactly
    /// `spec_since_index_no_payload(*last_index)` over the stored rows.
    pub fn get_packets_since_index_no_payload(&self, last_index: &u64) -> (r: Result<
        Vec<PacketDataFrontend>,
        QueryError,
    >) {
        let sql = queries::new_packets_since_index_no_payload(last_index);
        self.query_sql_no_payload(sql.as_str())
    }

    /// All rows newer than the cursor that the user's filter keeps, without
    /// payload columns, in index order: the query handed to the engine is
    /// exactly `spec_customized_no_payload(*last_index, user_sql@)` over the
    /// stored rows.
    pub fn get_packets_customized_no_payload(&self, last_index: &u64, user_sql: &str) -> (r: Result<
        Vec<PacketDataFrontend>,
        QueryError,
    >) {
        let sql = queries::new_packets_customized_no_payload(last_index, user_sql);
        self.query_sql_no_payload(sql.as_str())
    }

    /// The one row with the given index, payload included: the query handed
    /// to the engine is exactly `spec_packet_by_index(index)` over the
    /// stored rows.
    pub fn get_packet_by_index(&self, index: u64) -> (r: Result<Vec<PacketData>, QueryError>) {
        let sql = queries::get_packet_by_index(index);
        self.query_sql(sql.as_str())
    }

    /// The on-demand single-record fetch: the row with the given index when
    /// the store has it, nothing when it does not, or the engine's error.
    /// Which case holds is decided by `first_packet` on the engine's reply.
    pub fn get_packet_with_payload(&self, index: u64) -> (r: Result<Option<PacketData>, QueryError>) {
        match self.get_packet_by_index(index) {
            Ok(rows) => Ok(first_packet(&rows)),
            Err(e) => Err(e),
        }
    }

    /// One request handled: a batch is appended (no reply), a query is
    /// answered with its full rows (the host forwards them on the one-shot
    /// channel).
    pub fn handle_message(&mut self, msg: ActorMessage) -> (r: Option<
        Result<Vec<PacketData>, QueryError>,
    >)
        requires
            old(self).wf(),
        ensures
            final(self).wf(),
            match msg {
                ActorMessage::UpdateBatch(batch) => r is None && (if old(self).rows_model().len()
                    + batch@.len() <= u64::MAX {
                    final(self).rows_model().len() == old(self).rows_model().len() + batch@.len()
                        && (forall|i: int|
                        0 <= i < old(self).rows_model().len() ==> final(self).rows_model()[i]
                            == old(self).rows_model()[i]) && (forall|k: int|
                        0 <= k < batch@.len() ==> final(self).rows_model()[old(
                            self,
                        ).rows_model().len() + k] == stamped(
                            batch@[k]@,
                            (old(self).next() + k) as u64,
                        ))
                } else {
                    // the index space is exhausted: the batch is dropped
                    // rather than wrapping or reusing an index
                    *final(self) == *old(self)
                }),
                ActorMessage::QuerySql { sql } => *final(self) == *old(self) && r is Some,
            },
    {
        match msg {
            ActorMessage::UpdateBatch(batch) => {
                if usize_fits_u64_budget(self.rows.len(), batch.len()) {
                    self.update_batch(batch);
                } else {
                    // the table can no longer index new rows; drop the batch
                    // rather than wrap or reuse an index
                }
                None
            },
            ActorMessage::QuerySql { sql } => Some(self.query_sql(sql.as_str())),
        }
    }
}

/// The single-record step of an on-demand fetch: the first row of a query
/// result, or nothing when the result is empty.
pub fn first_packet(rows: &Vec<PacketData>) -> (r: Option<PacketData>)
    ensures
        match r {
            Some(p) => rows@.len() > 0 && p@ == rows@[0]@,
            None => rows@.len() == 0,
        },
{
    if rows.len() == 0 {
        None
    } else {
        Some(clone_packet(&rows[0]))
    }
}

/// Whether `len + add` still fits the 64-bit index space.
fn usize_fits_u64_budget(len: usize, add: usize) -> (r: bool)
    ensures
        r == (len + add <= u64::MAX),
{
    let a = len as u64;
    let b = add as u64;
    u64::MAX - a >= b
}

/// Law: in a well-formed store the assigned indices are exactly
/// 0, 1, …, N-1 in call-and-within-batch order — strictly increasing down
/// the table, with no gaps or repeats.
pub proof fn lemma_index_monotonicity(a: &DataFrameActor)
    requires
        a.wf(),
    ensures
        forall|i: int, j: int|
            0 <= i < j < a.rows_model().len() ==> a.rows_model()[i].index < a.rows_model()[j].index,
        forall|i: int| 0 <= i < a.rows_model().len() ==> a.rows_model()[i].index == i,
{
}

/// An empty capture table with the fixed schema, as the query engine sees
/// it.
pub fn create_capture_df() -> (df: DataFrame)
    ensures
        df_cols(df) == table_cols_of(Seq::<PacketModel>::empty()),
{
    proof {
        let e = Seq::<PacketModel>::empty();
        assert(Seq::<u64>::empty() =~= e.map_values(|p: PacketModel| p.index));
        assert(Seq::<i64>::empty() =~= e.map_values(|p: PacketModel| p.timestamp));
        assert(Seq::<Seq<char>>::empty() =~= e.map_values(|p: PacketModel| p.uuid));
        assert(Seq::<Seq<char>>::empty() =~= e.map_values(|p: PacketModel| p.src_ip));
        assert(Seq::<u32>::empty() =~= e.map_values(|p: PacketModel| p.src_port));
        assert(Seq::<Seq<char>>::empty() =~= e.map_values(|p: PacketModel| p.dst_ip));
        assert(Seq::<u32>::empty() =~= e.map_values(|p: PacketModel| p.dst_port));
        assert(Seq::<i32>::empty() =~= e.map_values(|p: PacketModel| p.pid));
        assert(Seq::<Seq<char>>::empty() =~= e.map_values(|p: PacketModel| p.pname));
        assert(Seq::<u32>::empty() =~= e.map_values(|p: PacketModel| p.kind));
        assert(Seq::<u32>::empty() =~= e.map_values(|p: PacketModel| p.length));
        assert(Seq::<bool>::empty() =~= e.map_values(|p: PacketModel| p.is_binary));
        assert(Seq::<Seq<char>>::empty() =~= e.map_values(|p: PacketModel| p.payload_utf8));
        assert(Seq::<Seq<u8>>::empty() =~= e.map_values(|p: PacketModel| p.payload_binary));
    }
    let empty_strs: Vec<String> = Vec::new();
    let empty_strs2: Vec<String> = Vec::new();
    let empty_strs3: Vec<String> = Vec::new();
    let empty_strs4: Vec<String> = Vec::new();
    let empty_strs5: Vec<String> = Vec::new();
    let empty_bins: Vec<Vec<u8>> = Vec::new();
    proof {
        assert(strs_view(Seq::<String>::empty()) =~= Seq::<Seq<char>>::empty());
        assert(bins_view(Seq::<Vec<u8>>::empty()) =~= Seq::<Seq<u8>>::empty());
    }
    match build_table_df(
        Vec::new(),
        Vec::new(),
        empty_strs,
        empty_strs2,
        Vec::new(),
        empty_strs3,
        Vec::new(),
        Vec::new(),
        empty_strs4,
        Vec::new(),
        Vec::new(),
        Vec::new(),
        empty_strs5,
        empty_bins,
    ) {
        Ok(df) => df,
        Err(_) => vstd::pervasive::unreached(),
    }
}

/// Validate user-supplied filter text without touching the real table: after
/// normalization an absent or empty filter always passes; anything else is
/// composed exactly as a poll tick would compose it at cursor zero
/// (`spec_customized_no_payload(0, t)`) and offered to the engine against an
/// empty table; the engine decides, and its rejection carries its message.
pub fn verify_user_sql(user_sql: Option<String>) -> (r: Result<(), QueryError>)
    ensures
        match crate::session::spec_normalize_user_sql(crate::session::opt_str_view(user_sql)) {
            None => r is Ok,
            Some(t) => r is Ok || r matches Err(QueryError::Engine(_)),
        },
{
    let normalized = crate::session::normalize_user_sql(user_sql);
    match normalized {
        None => Ok(()),
        Some(sql_text) => {
            let df = create_capture_df();
            let zero_index: u64 = 0;
            let validation_sql = queries::new_packets_customized_no_payload(
                &zero_index,
                sql_text.as_str(),
            );
            match run_table_sql(&df, "packets", validation_sql.as_str()) {
                Ok(u) => Ok(()),
                Err(e) => Err(QueryError::Engine(polars_err_message(&e))),
            }
        },
    }
}

} // verus!
