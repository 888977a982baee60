use ecaptureq::models::{PacketData, QueryError};
use ecaptureq::push::PushService;
use ecaptureq::store::{ActorMessage, DataFrameActor, first_packet, verify_user_sql, write_batch_to_df};

fn record(timestamp: i64, pname: &str) -> PacketData {
    PacketData {
        index: 0,
        timestamp,
        uuid: format!("u-{}", timestamp),
        src_ip: "10.0.0.1".to_string(),
        src_port: 1000,
        dst_ip: "10.0.0.2".to_string(),
        dst_port: 443,
        pid: 7,
        pname: pname.to_string(),
        kind: 2,
        length: 4,
        is_binary: false,
        payload_utf8: "data".to_string(),
        payload_binary: Vec::new(),
    }
}

#[test]
fn append_assigns_consecutive_indices() {
    let mut actor = DataFrameActor::new();
    actor.update_batch(vec![record(10, "a"), record(20, "b"), record(30, "c")]);
    let rows = actor.query_sql("SELECT * FROM packets").expect("query");
    assert_eq!(rows.len(), 3);
    assert_eq!(rows[0].index, 0);
    assert_eq!(rows[1].index, 1);
    assert_eq!(rows[2].index, 2);
}

#[test]
fn indices_stay_monotonic_across_batches() {
    let mut actor = DataFrameActor::new();
    actor.update_batch(vec![record(1, "a"), record(2, "a")]);
    actor.update_batch(Vec::new());
    actor.update_batch(vec![record(3, "a"), record(4, "a"), record(5, "a")]);
    let rows = actor.query_sql("SELECT * FROM packets").expect("query");
    let indices: Vec<u64> = rows.iter().map(|r| r.index).collect();
    assert_eq!(indices, vec![0, 1, 2, 3, 4]);
}

#[test]
fn three_records_then_get_by_index() {
    let mut actor = DataFrameActor::new();
    actor.update_batch(vec![record(10, "a"), record(20, "b"), record(30, "c")]);
    let rows = actor.get_packet_by_index(1).expect("query");
    assert_eq!(rows.len(), 1);
    assert_eq!(rows[0].timestamp, 20);
    assert_eq!(rows[0].index, 1);
}

#[test]
fn get_by_index_misses_cleanly() {
    let mut actor = DataFrameActor::new();
    actor.update_batch(vec![record(10, "a")]);
    let rows = actor.get_packet_by_index(5).expect("query");
    assert_eq!(rows.len(), 0);
}

#[test]
fn write_batch_advances_next_index() {
    let mut table: Vec<PacketData> = Vec::new();
    let mut next_index: u64 = 0;
    write_batch_to_df(&[record(1, "x"), record(2, "x")], &mut table, &mut next_index);
    assert_eq!(next_index, 2);
    write_batch_to_df(&[record(3, "x")], &mut table, &mut next_index);
    assert_eq!(next_index, 3);
    assert_eq!(table.len(), 3);
    assert_eq!(table[2].index, 2);
    assert_eq!(table[2].timestamp, 3);
}

#[test]
fn empty_batch_is_a_no_op() {
    let mut table: Vec<PacketData> = Vec::new();
    let mut next_index: u64 = 0;
    write_batch_to_df(&[], &mut table, &mut next_index);
    assert_eq!(next_index, 0);
    assert!(table.is_empty());
}

#[test]
fn payload_survives_the_table_round_trip() {
    let mut binary = record(9, "bin");
    binary.is_binary = true;
    binary.payload_utf8 = String::new();
    binary.payload_binary = vec![0xde, 0xad, 0xbe, 0xef];
    let mut actor = DataFrameActor::new();
    actor.update_batch(vec![record(1, "txt"), binary]);
    let rows = actor.query_sql("SELECT * FROM packets").expect("query");
    assert_eq!(rows[0].payload_utf8, "data");
    assert!(rows[0].payload_binary.is_empty());
    assert!(rows[1].is_binary);
    assert_eq!(rows[1].payload_binary, vec![0xde, 0xad, 0xbe, 0xef]);
    assert!(rows[1].payload_utf8.is_empty());
}

#[test]
fn incremental_query_filters_by_cursor() {
    let mut actor = DataFrameActor::new();
    actor.update_batch(vec![record(1, "a"), record(2, "b"), record(3, "c")]);
    let rows = actor.get_packets_since_index_no_payload(&0).expect("query");
    assert_eq!(rows.len(), 2);
    assert_eq!(rows[0].index, 1);
    assert_eq!(rows[1].index, 2);
}

#[test]
fn customized_query_applies_the_predicate() {
    let mut actor = DataFrameActor::new();
    actor.update_batch(vec![record(1, "wget"), record(2, "curl"), record(3, "curl")]);
    // the cursor filter (index > 0) applies on top of the predicate
    let rows = actor
        .get_packets_customized_no_payload(&0, "pname = 'curl'")
        .expect("query");
    assert_eq!(rows.len(), 2);
    assert_eq!(rows[0].index, 1);
    assert_eq!(rows[1].index, 2);
    let after = actor
        .get_packets_customized_no_payload(&2, "pname = 'curl'")
        .expect("query");
    assert_eq!(after.len(), 0);
}

#[test]
fn malformed_query_surfaces_the_engine_error() {
    let actor = DataFrameActor::new();
    match actor.query_sql("THIS IS NOT A QUERY (((") {
        Err(QueryError::Engine(msg)) => assert!(!msg.is_empty()),
        other => panic!("expected an engine error, got {:?}", other),
    }
}

#[test]
fn projection_without_payload_columns_is_bad_shape_for_full_rows() {
    let mut actor = DataFrameActor::new();
    actor.update_batch(vec![record(1, "a")]);
    match actor.query_sql("SELECT index FROM packets") {
        Err(QueryError::BadShape) => {}
        other => panic!("expected BadShape, got {:?}", other),
    }
}

#[test]
fn verify_user_sql_accepts_absent_or_blank_filters() {
    assert!(verify_user_sql(None).is_ok());
    assert!(verify_user_sql(Some("   ".to_string())).is_ok());
}

#[test]
fn verify_user_sql_accepts_a_valid_predicate() {
    assert!(verify_user_sql(Some("pname = 'curl'".to_string())).is_ok());
}

#[test]
fn verify_user_sql_rejects_garbage() {
    match verify_user_sql(Some("((( nonsense".to_string())) {
        Err(QueryError::Engine(msg)) => assert!(!msg.is_empty()),
        other => panic!("expected an engine error, got {:?}", other),
    }
}

fn poll_once(push: &mut PushService, actor: &DataFrameActor) -> Option<Vec<ecaptureq::models::PacketDataFrontend>> {
    // one poll tick, composed as the host composes it: build the query,
    // offer it to the store, account the outcome
    let sql = push.poll_sql();
    let outcome = actor.query_sql_no_payload(&sql);
    let emit = push.apply_poll(&outcome);
    if emit { outcome.ok() } else { None }
}

#[test]
fn push_service_polls_and_advances_cursor() {
    // scenario: a predicate-filtered consumer starting at cursor zero
    let mut actor = DataFrameActor::new();
    actor.update_batch(vec![
        record(1, "wget"),
        record(2, "wget"),
        record(3, "wget"),
        record(4, "curl"),
        record(5, "curl"),
    ]);
    let mut push = PushService::new(
        Some("pname = 'curl'".to_string()),
        0,
        "packet-data".to_string(),
    );
    let first = poll_once(&mut push, &actor).expect("first poll should return rows");
    assert_eq!(first.len(), 2);
    assert_eq!(first[0].index, 3);
    assert_eq!(first[1].index, 4);

    // no new data: the second poll returns nothing and keeps the cursor
    assert!(poll_once(&mut push, &actor).is_none());
    assert!(poll_once(&mut push, &actor).is_none());

    // changing the predicate resets the cursor: the rows surface again
    push.set_filter(Some("pname = 'curl'".to_string()));
    let again = poll_once(&mut push, &actor).expect("poll after reset");
    assert_eq!(again.len(), 2);
    assert_eq!(again[0].index, 3);
}

#[test]
fn cursor_advances_to_highest_returned_index() {
    let mut push = PushService::new(None, 0, "t".to_string());
    let rows = vec![frontend(5), frontend(7), frontend(9)];
    let emit = push.apply_poll(&Ok(rows));
    assert!(emit);
    // a poll returning nothing leaves the cursor alone
    let emit2 = push.apply_poll(&Ok(Vec::new()));
    assert!(!emit2);
    // a failed poll leaves the cursor alone
    let emit3 = push.apply_poll(&Err(QueryError::Engine("x".to_string())));
    assert!(!emit3);
    // the cursor is observable through the next composed query
    assert!(push.poll_sql().contains("index > 9"));
}

#[test]
fn cursor_never_moves_backward() {
    let mut push = PushService::new(None, 9, "t".to_string());
    // a result whose highest index lies at or below the cursor is emitted
    // but cannot drag the cursor back
    let emit = push.apply_poll(&Ok(vec![frontend(3)]));
    assert!(emit);
    assert!(push.poll_sql().contains("index > 9"));
    let emit2 = push.apply_poll(&Ok(vec![frontend(9)]));
    assert!(emit2);
    assert!(push.poll_sql().contains("index > 9"));
    // only a higher index advances it
    let emit3 = push.apply_poll(&Ok(vec![frontend(12)]));
    assert!(emit3);
    assert!(push.poll_sql().contains("index > 12"));
}

#[test]
fn single_record_fetch_finds_or_misses() {
    let mut actor = DataFrameActor::new();
    actor.update_batch(vec![record(10, "a"), record(20, "b"), record(30, "c")]);
    match actor.get_packet_with_payload(1) {
        Ok(Some(p)) => {
            assert_eq!(p.index, 1);
            assert_eq!(p.timestamp, 20);
            assert_eq!(p.payload_utf8, "data");
        }
        other => panic!("expected the record, got {:?}", other),
    }
    match actor.get_packet_with_payload(9) {
        Ok(None) => {}
        other => panic!("expected a miss, got {:?}", other),
    }
}

#[test]
fn first_packet_takes_the_first_row_or_nothing() {
    assert!(first_packet(&Vec::new()).is_none());
    let rows = vec![record(5, "x"), record(6, "y")];
    let p = first_packet(&rows).expect("non-empty result");
    assert_eq!(p.timestamp, 5);
}

fn frontend(index: u64) -> ecaptureq::models::PacketDataFrontend {
    ecaptureq::models::PacketDataFrontend {
        index,
        timestamp: 0,
        uuid: String::new(),
        src_ip: String::new(),
        src_port: 0,
        dst_ip: String::new(),
        dst_port: 0,
        pid: 0,
        pname: String::new(),
        kind: 0,
        length: 0,
        is_binary: false,
    }
}

#[test]
fn push_without_filter_uses_plain_incremental_query() {
    let mut actor = DataFrameActor::new();
    actor.update_batch(vec![record(1, "a"), record(2, "b")]);
    let mut push = PushService::new(None, 0, "t".to_string());
    let rows = poll_once(&mut push, &actor).expect("poll");
    assert_eq!(rows.len(), 1);
    assert_eq!(rows[0].index, 1);
    assert!(poll_once(&mut push, &actor).is_none());
}

#[test]
fn actor_messages_append_and_answer_queries() {
    let mut actor = DataFrameActor::new();
    let none = actor.handle_message(ActorMessage::UpdateBatch(vec![record(7, "a"), record(8, "b")]));
    assert!(none.is_none());
    let answer = actor
        .handle_message(ActorMessage::QuerySql { sql: "SELECT * FROM packets".to_string() })
        .expect("a query is always answered");
    let rows = answer.expect("the query succeeds");
    assert_eq!(rows.len(), 2);
    assert_eq!(rows[1].index, 1);
    assert_eq!(rows[1].timestamp, 8);
}
