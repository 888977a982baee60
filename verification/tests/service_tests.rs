use ecaptureq::hashing::get_cli_binary_name;
use ecaptureq::ingest::{IngestAction, IngestionBuffer, should_retry, BATCH_SIZE};
use ecaptureq::models::{DecodeError, LogType};
use ecaptureq::session::{
    config_check, normalize_user_sql, start_session, stop_session, Configs, RunState, SessionError,
};

fn varint(mut v: u64) -> Vec<u8> {
    let mut out = Vec::new();
    loop {
        let b = (v & 0x7f) as u8;
        v >>= 7;
        if v == 0 {
            out.push(b);
            return out;
        }
        out.push(b | 0x80);
    }
}

fn field_varint(num: u32, v: u64) -> Vec<u8> {
    let mut out = varint(((num as u64) << 3) | 0);
    out.extend_from_slice(&varint(v));
    out
}

fn field_bytes(num: u32, data: &[u8]) -> Vec<u8> {
    let mut out = varint(((num as u64) << 3) | 2);
    out.extend_from_slice(&varint(data.len() as u64));
    out.extend_from_slice(data);
    out
}

fn event_msg(timestamp: i64) -> Vec<u8> {
    let mut body = Vec::new();
    body.extend_from_slice(&field_varint(1, timestamp as u64));
    body.extend_from_slice(&field_bytes(2, b"u"));
    body.extend_from_slice(&field_bytes(11, b"payload"));
    field_bytes(1, &body)
}

#[test]
fn count_bound_triggers_exactly_one_flush_for_twenty_five_events() {
    let mut buf = IngestionBuffer::new();
    let mut flushes = Vec::new();
    for i in 0..25 {
        match buf.on_message(&event_msg(i)) {
            IngestAction::Flush(batch) => flushes.push(batch),
            IngestAction::Buffered => {}
            other => panic!("unexpected action {:?}", action_name(&other)),
        }
    }
    assert_eq!(flushes.len(), 1);
    assert_eq!(flushes[0].len(), BATCH_SIZE);
    // the five remaining events are still buffered, in arrival order
    let rest = buf.on_timer_tick().expect("five events remain buffered");
    assert_eq!(rest.len(), 5);
    assert_eq!(rest[0].timestamp, 20);
    assert_eq!(rest[4].timestamp, 24);
}

fn action_name(a: &IngestAction) -> &'static str {
    match a {
        IngestAction::Flush(_) => "flush",
        IngestAction::Buffered => "buffered",
        IngestAction::Noted => "noted",
        IngestAction::Skipped(_) => "skipped",
    }
}

#[test]
fn decode_failure_skips_one_message_and_keeps_the_rest() {
    let mut buf = IngestionBuffer::new();
    match buf.on_message(&event_msg(1)) {
        IngestAction::Buffered => {}
        other => panic!("unexpected action {:?}", action_name(&other)),
    }
    match buf.on_message(&[0x80, 0x80]) {
        IngestAction::Skipped(DecodeError::Truncated) => {}
        other => panic!("unexpected action {:?}", action_name(&other)),
    }
    match buf.on_message(&event_msg(3)) {
        IngestAction::Buffered => {}
        other => panic!("unexpected action {:?}", action_name(&other)),
    }
    let batch = buf.on_timer_tick().expect("two events buffered");
    assert_eq!(batch.len(), 2);
    assert_eq!(batch[0].timestamp, 1);
    assert_eq!(batch[1].timestamp, 3);
}

#[test]
fn timer_tick_on_empty_buffer_flushes_nothing() {
    let mut buf = IngestionBuffer::new();
    assert!(buf.on_timer_tick().is_none());
}

#[test]
fn heartbeats_and_logs_are_noted_not_buffered() {
    let mut buf = IngestionBuffer::new();
    let mut hb = Vec::new();
    hb.extend_from_slice(&field_varint(1, 5));
    hb.extend_from_slice(&field_varint(2, 1));
    let heartbeat = field_bytes(2, &hb);
    match buf.on_message(&heartbeat) {
        IngestAction::Noted => {}
        other => panic!("unexpected action {:?}", action_name(&other)),
    }
    let log = field_bytes(3, b"line");
    match buf.on_message(&log) {
        IngestAction::Noted => {}
        other => panic!("unexpected action {:?}", action_name(&other)),
    }
    assert!(buf.on_timer_tick().is_none());
}

#[test]
fn retry_follows_the_run_state() {
    assert!(should_retry(&RunState::Capturing));
    assert!(!should_retry(&RunState::NotCapturing));
}

#[test]
fn session_start_and_stop_transitions() {
    match start_session(&RunState::NotCapturing) {
        Ok(RunState::Capturing) => {}
        other => panic!("unexpected transition {:?}", other),
    }
    assert_eq!(start_session(&RunState::Capturing), Err(SessionError::AlreadyRunning));
    match stop_session(&RunState::Capturing) {
        Ok(RunState::NotCapturing) => {}
        other => panic!("unexpected transition {:?}", other),
    }
    assert_eq!(stop_session(&RunState::NotCapturing), Err(SessionError::NotRunning));
}

#[test]
fn config_check_decides_when_to_write_defaults() {
    assert!(!config_check(true, true));
    assert!(config_check(true, false));
    assert!(config_check(false, false));
    assert!(config_check(false, true));
}

#[test]
fn config_defaults_point_at_the_local_event_source() {
    let c = Configs::init();
    assert_eq!(c.ws_url.as_deref(), Some("ws://127.0.0.1:28257"));
    assert_eq!(c.ecapture_args.as_deref(), Some(" tls --ecaptureq ws://127.0.0.1:28257"));
    assert!(c.user_sql.is_none());
}

#[test]
fn apply_patch_takes_present_fields_and_keeps_absent_ones() {
    let mut base = Configs {
        ws_url: Some("ws://old".to_string()),
        ecapture_args: Some("args".to_string()),
        user_sql: Some("old filter".to_string()),
    };
    let mut patch = Configs {
        ws_url: Some("ws://new".to_string()),
        ecapture_args: None,
        user_sql: Some("new filter".to_string()),
    };
    base.apply_patch(&mut patch);
    assert_eq!(base.ws_url.as_deref(), Some("ws://new"));
    assert_eq!(base.ecapture_args.as_deref(), Some("args"));
    assert_eq!(base.user_sql.as_deref(), Some("new filter"));
    assert!(patch.ws_url.is_none());
    assert!(patch.user_sql.is_none());
}

#[test]
fn normalize_trims_and_drops_blank_filters() {
    assert_eq!(normalize_user_sql(None), None);
    assert_eq!(normalize_user_sql(Some("  ".to_string())), None);
    assert_eq!(
        normalize_user_sql(Some("  pname = 'curl'  ".to_string())),
        Some("pname = 'curl'".to_string())
    );
}

#[test]
fn log_type_mapping_from_bytes() {
    assert_eq!(LogType::from(0u8), LogType::Heartbeat);
    assert_eq!(LogType::from(1u8), LogType::ProcessLog);
    assert_eq!(LogType::from(2u8), LogType::Event);
    assert_eq!(LogType::from(200u8), LogType::Event);
}

#[test]
fn binary_name_carries_the_digest_of_the_bytes() {
    assert_eq!(
        get_cli_binary_name("linux_ecapture_amd64", b"hello"),
        "linux_ecapture_amd64_2cf24dba5fb0a30e26e83b2ac5b9e29e1b161e5c1fa7425e73043362938b9824"
    );
    assert_eq!(
        get_cli_binary_name("p", b""),
        "p_e3b0c44298fc1c149afbf4c8996fb92427ae41e4649b934ca495991b7852b855"
    );
}

#[test]
fn kill_list_drops_exempt_and_duplicate_pids() {
    let cleaner = ecaptureq::cleaner::AndroidCleaner::new();
    let found = vec![10, 20, 10, 30, 40, 20];
    let exempt = vec![30, 99];
    assert_eq!(cleaner.pids_to_kill(&found, &exempt), vec![10, 20, 40]);
    assert_eq!(cleaner.pids_to_kill(&Vec::new(), &exempt), Vec::<u32>::new());
}
