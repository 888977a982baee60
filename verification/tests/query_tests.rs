use ecaptureq::queries::{
    all_packets, get_packet_by_index, is_full_select, new_packets_customized_no_payload,
    new_packets_since_index, new_packets_since_index_no_payload, new_packets_since_offset,
    strip_stmt_end, trim_chars, u64_to_string,
};

const COLS: &str = "index, timestamp, uuid, src_ip, src_port, dst_ip, dst_port, pid, pname, type, length, is_binary";

#[test]
fn all_packets_text() {
    assert_eq!(all_packets(), "SELECT * FROM packets");
}

#[test]
fn since_offset_text() {
    assert_eq!(new_packets_since_offset(42), "SELECT * FROM packets OFFSET 42");
}

#[test]
fn since_index_text() {
    assert_eq!(
        new_packets_since_index(7),
        "SELECT * FROM packets WHERE index > 7 ORDER BY index"
    );
}

#[test]
fn since_index_no_payload_text() {
    assert_eq!(
        new_packets_since_index_no_payload(&9),
        format!("SELECT {} FROM packets WHERE index > 9 ORDER BY index", COLS)
    );
}

#[test]
fn packet_by_index_text() {
    assert_eq!(
        get_packet_by_index(3),
        "SELECT * FROM packets WHERE index = 3 LIMIT 1"
    );
}

#[test]
fn full_query_is_wrapped_as_subquery() {
    assert_eq!(
        new_packets_customized_no_payload(&0, "SELECT * FROM packets"),
        format!(
            "SELECT {} FROM (SELECT * FROM packets) AS user_view WHERE index > 0 ORDER BY index ASC",
            COLS
        )
    );
}

#[test]
fn wrapping_is_insensitive_to_case_and_whitespace() {
    // the two composed queries share the projection, cursor filter and
    // ordering, differing only in the embedded subquery text
    let a = new_packets_customized_no_payload(&0, "SELECT * FROM packets");
    let b = new_packets_customized_no_payload(&0, "select * from packets ");
    let prefix = format!("SELECT {} FROM (", COLS);
    let suffix = ") AS user_view WHERE index > 0 ORDER BY index ASC";
    assert!(a.starts_with(&prefix) && a.ends_with(suffix));
    assert!(b.starts_with(&prefix) && b.ends_with(suffix));
    assert_eq!(&a[prefix.len()..a.len() - suffix.len()], "SELECT * FROM packets");
    assert_eq!(&b[prefix.len()..b.len() - suffix.len()], "select * from packets");
}

#[test]
fn trailing_terminator_is_stripped_before_wrapping() {
    assert_eq!(
        new_packets_customized_no_payload(&5, "SELECT a FROM packets ;  "),
        format!(
            "SELECT {} FROM (SELECT a FROM packets) AS user_view WHERE index > 5 ORDER BY index ASC",
            COLS
        )
    );
}

#[test]
fn bare_predicate_is_parenthesized_and_conjoined() {
    assert_eq!(
        new_packets_customized_no_payload(&0, "pname = 'curl'"),
        format!(
            "SELECT {} FROM packets WHERE (pname = 'curl') AND index > 0 ORDER BY index ASC",
            COLS
        )
    );
}

#[test]
fn empty_predicate_becomes_always_true() {
    assert_eq!(
        new_packets_customized_no_payload(&12, "   "),
        format!(
            "SELECT {} FROM packets WHERE (1=1) AND index > 12 ORDER BY index ASC",
            COLS
        )
    );
}

#[test]
fn select_detection_is_case_insensitive() {
    assert!(is_full_select("SeLeCt 1"));
    assert!(is_full_select("select"));
    assert!(!is_full_select("selec"));
    assert!(!is_full_select("pname = 'select'"));
    assert!(!is_full_select(""));
}

#[test]
fn trim_removes_surrounding_whitespace_only() {
    assert_eq!(trim_chars("  a b\t\n"), "a b");
    assert_eq!(trim_chars(""), "");
    assert_eq!(trim_chars(" \t\r\n"), "");
    assert_eq!(trim_chars("x"), "x");
}

#[test]
fn strip_stmt_end_removes_semicolons_and_spaces() {
    assert_eq!(strip_stmt_end("select 1; ; "), "select 1");
    assert_eq!(strip_stmt_end("select 1"), "select 1");
    assert_eq!(strip_stmt_end(";; "), "");
}

#[test]
fn decimal_rendering_is_exact() {
    assert_eq!(u64_to_string(0), "0");
    assert_eq!(u64_to_string(7), "7");
    assert_eq!(u64_to_string(10), "10");
    assert_eq!(u64_to_string(18446744073709551615), "18446744073709551615");
}
