//! The query template builder: composes cursor-bounded relational query
//! strings from either a full user query or a bare filter predicate.
//!
//! Composed queries always select the fixed, explicit column list (never
//! `*`), filter to `index > cursor`, and order ascending by `index`. This
//! builder performs structural wrapping only, no escaping: it is a
//! best-effort safety layer for a trusted local operator, not an
//! injection-proof parser.

use vstd::prelude::*;
use vstd::string::*;

verus! {

/// The characters the builder treats as whitespace when trimming input.
pub open spec fn is_space_char(c: char) -> bool {
    c == ' ' || c == '\t' || c == '\n' || c == '\r'
}

/// A trailing character a full query is allowed to end with before being
/// wrapped: a statement terminator or a space.
pub open spec fn is_stmt_end_char(c: char) -> bool {
    c == ';' || c == ' '
}

/// How many leading characters of `s` satisfy `p`.
pub open spec fn count_prefix(s: Seq<char>, p: spec_fn(char) -> bool) -> int
    decreases s.len(),
{
    if s.len() > 0 && p(s[0]) {
        1 + count_prefix(s.skip(1), p)
    } else {
        0
    }
}

/// How many trailing characters of `s` satisfy `p`.
pub open spec fn count_suffix(s: Seq<char>, p: spec_fn(char) -> bool) -> int
    decreases s.len(),
{
    if s.len() > 0 && p(s[s.len() - 1]) {
        1 + count_suffix(s.take(s.len() - 1), p)
    } else {
        0
    }
}

pub proof fn lemma_count_prefix_bounds(s: Seq<char>, p: spec_fn(char) -> bool)
    ensures
        0 <= count_prefix(s, p) <= s.len(),
    decreases s.len(),
{
    if s.len() > 0 && p(s[0]) {
        lemma_count_prefix_bounds(s.skip(1), p);
    }
}

pub proof fn lemma_count_suffix_bounds(s: Seq<char>, p: spec_fn(char) -> bool)
    ensures
        0 <= count_suffix(s, p) <= s.len(),
    decreases s.len(),
{
    if s.len() > 0 && p(s[s.len() - 1]) {
        lemma_count_suffix_bounds(s.take(s.len() - 1), p);
    }
}

/// `s` with leading and trailing whitespace removed.
pub open spec fn spec_trim(s: Seq<char>) -> Seq<char> {
    let front = s.skip(count_prefix(s, |c: char| is_space_char(c)));
    front.take(front.len() - count_suffix(front, |c: char| is_space_char(c)))
}

/// `s` with trailing statement terminators and spaces removed.
pub open spec fn spec_strip_stmt_end(s: Seq<char>) -> Seq<char> {
    s.take(s.len() - count_suffix(s, |c: char| is_stmt_end_char(c)))
}

/// Whether `s` begins, case-insensitively, with the selection keyword — the
/// mark of a full query rather than a bare predicate.
pub open spec fn starts_with_select_ci(s: Seq<char>) -> bool {
    s.len() >= 6 && (s[0] == 's' || s[0] == 'S') && (s[1] == 'e' || s[1] == 'E') && (s[2] == 'l'
        || s[2] == 'L') && (s[3] == 'e' || s[3] == 'E') && (s[4] == 'c' || s[4] == 'C') && (s[5]
        == 't' || s[5] == 'T')
}

/// The decimal digits of `n`, most significant first.
pub open spec fn dec_digits(n: u64) -> Seq<char>
    decreases n,
{
    if n < 10 {
        seq![digit_char(n)]
    } else {
        dec_digits(n / 10) + seq![digit_char(n % 10)]
    }
}

/// The character for one decimal digit.
pub open spec fn digit_char(d: u64) -> char {
    if d == 0 {
        '0'
    } else if d == 1 {
        '1'
    } else if d == 2 {
        '2'
    } else if d == 3 {
        '3'
    } else if d == 4 {
        '4'
    } else if d == 5 {
        '5'
    } else if d == 6 {
        '6'
    } else if d == 7 {
        '7'
    } else if d == 8 {
        '8'
    } else {
        '9'
    }
}

fn digit_str(d: u64) -> (r: &'static str)
    requires
        d < 10,
    ensures
        r@ == seq![digit_char(d)],
{
    proof {
        reveal_strlit("0");
        reveal_strlit("1");
        reveal_strlit("2");
        reveal_strlit("3");
        reveal_strlit("4");
        reveal_strlit("5");
        reveal_strlit("6");
        reveal_strlit("7");
        reveal_strlit("8");
        reveal_strlit("9");
    }
    let r: &'static str = if d == 0 {
        "0"
    } else if d == 1 {
        "1"
    } else if d == 2 {
        "2"
    } else if d == 3 {
        "3"
    } else if d == 4 {
        "4"
    } else if d == 5 {
        "5"
    } else if d == 6 {
        "6"
    } else if d == 7 {
        "7"
    } else if d == 8 {
        "8"
    } else {
        "9"
    };
    proof {
        assert(r@ =~= seq![digit_char(d)]);
    }
    r
}

/// `n` written in decimal.
pub fn u64_to_string(n: u64) -> (r: String)
    ensures
        r@ == dec_digits(n),
    decreases n,
{
    if n < 10 {
        String::from_str(digit_str(n))
    } else {
        let mut s = u64_to_string(n / 10);
        s.append(digit_str(n % 10));
        proof {
            assert(s@ =~= dec_digits(n));
        }
        s
    }
}

/// Whitespace on both ends of `s` removed.
pub fn trim_chars<'a>(s: &'a str) -> (r: &'a str)
    ensures
        r@ == spec_trim(s@),
{
    let ghost wsp = |c: char| is_space_char(c);
    let len: usize = s.unicode_len();
    let mut i: usize = 0;
    proof {
        assert(s@.skip(0) =~= s@);
    }
    loop
        invariant
            i <= len == s@.len(),
            count_prefix(s@.skip(i as int), wsp) + i == count_prefix(s@, wsp),
            wsp == (|c: char| is_space_char(c)),
        ensures
            i <= len == s@.len(),
            i == count_prefix(s@, wsp),
        decreases len - i,
    {
        if i >= len {
            proof {
                assert(count_prefix(s@.skip(i as int), wsp) == 0);
            }
            break;
        }
        let c = s.get_char(i);
        assert(s@.skip(i as int)[0] == c);
        if !(c == ' ' || c == '\t' || c == '\n' || c == '\r') {
            proof {
                assert(count_prefix(s@.skip(i as int), wsp) == 0);
            }
            break;
        }
        proof {
            assert(s@.skip(i as int).skip(1) =~= s@.skip(i + 1));
        }
        i = i + 1;
    }
    let ghost front = s@.skip(i as int);
    let mut j: usize = len;
    proof {
        assert(front.take(front.len() as int) =~= front);
    }
    loop
        invariant
            i <= j <= len == s@.len(),
            front == s@.skip(i as int),
            i == count_prefix(s@, wsp),
            count_suffix(front.take(j - i), wsp) + (len - j) == count_suffix(front, wsp),
            wsp == (|c: char| is_space_char(c)),
        ensures
            i <= j <= len == s@.len(),
            len - j == count_suffix(front, wsp),
        decreases j,
    {
        if j <= i {
            proof {
                assert(front.take(0).len() == 0);
                assert(count_suffix(front.take(j - i), wsp) == 0);
            }
            break;
        }
        let c = s.get_char(j - 1);
        proof {
            assert(front.take(j - i)[j - i - 1] == s@[j - 1]);
        }
        if !(c == ' ' || c == '\t' || c == '\n' || c == '\r') {
            proof {
                assert(count_suffix(front.take(j - i), wsp) == 0);
            }
            break;
        }
        proof {
            assert(front.take(j - i).take(j - i - 1) =~= front.take(j - 1 - i));
        }
        j = j - 1;
    }
    let r = s.substring_char(i, j);
    proof {
        assert(r@ =~= spec_trim(s@));
    }
    r
}

/// Trailing statement terminators and spaces of `s` removed.
pub fn strip_stmt_end<'a>(s: &'a str) -> (r: &'a str)
    ensures
        r@ == spec_strip_stmt_end(s@),
{
    let ghost ep = |c: char| is_stmt_end_char(c);
    let len: usize = s.unicode_len();
    let mut j: usize = len;
    proof {
        assert(s@.take(len as int) =~= s@);
    }
    loop
        invariant
            j <= len == s@.len(),
            count_suffix(s@.take(j as int), ep) + (len - j) == count_suffix(s@, ep),
            ep == (|c: char| is_stmt_end_char(c)),
        ensures
            j <= len == s@.len(),
            len - j == count_suffix(s@, ep),
        decreases j,
    {
        if j == 0 {
            proof {
                assert(count_suffix(s@.take(0), ep) == 0);
            }
            break;
        }
        let c = s.get_char(j - 1);
        proof {
            assert(s@.take(j as int)[j - 1] == s@[j - 1]);
        }
        if !(c == ';' || c == ' ') {
            proof {
                assert(count_suffix(s@.take(j as int), ep) == 0);
            }
            break;
        }
        proof {
            assert(s@.take(j as int).take(j - 1) =~= s@.take(j - 1));
        }
        j = j - 1;
    }
    let r = s.substring_char(0, j);
    proof {
        assert(r@ =~= spec_strip_stmt_end(s@));
    }
    r
}

/// Whether `s`, already trimmed, reads as a full query.
pub fn is_full_select(s: &str) -> (r: bool)
    ensures
        r == starts_with_select_ci(s@),
{
    let len: usize = s.unicode_len();
    if len < 6 {
        return false;
    }
    let c0 = s.get_char(0);
    let c1 = s.get_char(1);
    let c2 = s.get_char(2);
    let c3 = s.get_char(3);
    let c4 = s.get_char(4);
    let c5 = s.get_char(5);
    (c0 == 's' || c0 == 'S') && (c1 == 'e' || c1 == 'E') && (c2 == 'l' || c2 == 'L') && (c3 == 'e'
        || c3 == 'E') && (c4 == 'c' || c4 == 'C') && (c5 == 't' || c5 == 'T')
}


/// The fixed column list every composed incremental query projects.
pub open spec fn spec_target_cols() -> Seq<char> {
    "index, timestamp, uuid, src_ip, src_port, dst_ip, dst_port, pid, pname, type, length, is_binary"@
}

fn target_cols() -> (r: &'static str)
    ensures
        r@ == spec_target_cols(),
{
    "index, timestamp, uuid, src_ip, src_port, dst_ip, dst_port, pid, pname, type, length, is_binary"
}

/// The query for the whole table.
pub fn all_packets() -> (r: String)
    ensures
        r@ == "SELECT * FROM packets"@,
{
    String::from_str("SELECT * FROM packets")
}

/// The composed query skipping the first `offset` rows.
pub open spec fn spec_since_offset(offset: u64) -> Seq<char> {
    "SELECT * FROM packets OFFSET "@ + dec_digits(offset)
}

/// The query for all rows past a row offset.
pub fn new_packets_since_offset(offset: usize) -> (r: String)
    ensures
        r@ == spec_since_offset(offset as u64),
{
    let mut s = String::from_str("SELECT * FROM packets OFFSET ");
    let num = u64_to_string(offset as u64);
    s.append(num.as_str());
    s
}

/// The composed query for all full rows with `index` past the cursor.
pub open spec fn spec_since_index(last_index: u64) -> Seq<char> {
    "SELECT * FROM packets WHERE index > "@ + dec_digits(last_index) + " ORDER BY index"@
}

/// The query for all full rows newer than the cursor, in index order.
pub fn new_packets_since_index(last_index: u64) -> (r: String)
    ensures
        r@ == spec_since_index(last_index),
{
    let mut s = String::from_str("SELECT * FROM packets WHERE index > ");
    let num = u64_to_string(last_index);
    s.append(num.as_str());
    s.append(" ORDER BY index");
    proof {
        assert(s@ =~= spec_since_index(last_index));
    }
    s
}

/// The composed query for the payload-free projection of all rows with
/// `index` past the cursor, in index order.
pub open spec fn spec_since_index_no_payload(last_index: u64) -> Seq<char> {
    "SELECT "@ + spec_target_cols() + " FROM packets WHERE index > "@ + dec_digits(last_index)
        + " ORDER BY index"@
}

/// The query for all new rows, without the payload columns.
pub fn new_packets_since_index_no_payload(last_index: &u64) -> (r: String)
    ensures
        r@ == spec_since_index_no_payload(*last_index),
{
    let mut s = String::from_str("SELECT ");
    s.append(target_cols());
    s.append(" FROM packets WHERE index > ");
    let num = u64_to_string(*last_index);
    s.append(num.as_str());
    s.append(" ORDER BY index");
    proof {
        assert(s@ =~= spec_since_index_no_payload(*last_index));
    }
    s
}

/// The fixed opening of a wrapped full query: projection, then the named
/// subquery's opening parenthesis.
pub open spec fn spec_wrap_prefix() -> Seq<char> {
    "SELECT "@ + spec_target_cols() + " FROM ("@
}

/// The fixed closing of a wrapped full query: the subquery's name, the
/// cursor filter, and the ordering.
pub open spec fn spec_wrap_suffix(last_index: u64) -> Seq<char> {
    ") AS user_view WHERE index > "@ + dec_digits(last_index) + " ORDER BY index ASC"@
}

/// The fixed opening of a predicate-mode query.
pub open spec fn spec_pred_prefix() -> Seq<char> {
    "SELECT "@ + spec_target_cols() + " FROM packets WHERE ("@
}

/// The fixed closing of a predicate-mode query.
pub open spec fn spec_pred_suffix(last_index: u64) -> Seq<char> {
    ") AND index > "@ + dec_digits(last_index) + " ORDER BY index ASC"@
}

/// The composed query for user-supplied text: a full query (it begins with
/// the selection keyword after trimming) is wrapped as a named subquery
/// under the fixed projection, cursor filter and ordering; anything else is
/// treated as a bare predicate, parenthesized and conjoined with the cursor
/// filter; empty input becomes an always-true predicate.
pub open spec fn spec_customized_no_payload(last_index: u64, user_sql: Seq<char>) -> Seq<char> {
    let t = spec_trim(user_sql);
    if starts_with_select_ci(t) {
        spec_wrap_prefix() + spec_strip_stmt_end(t) + spec_wrap_suffix(last_index)
    } else {
        let cond = if t.len() == 0 {
            "1=1"@
        } else {
            t
        };
        spec_pred_prefix() + cond + spec_pred_suffix(last_index)
    }
}

/// Compose the incremental query from the cursor and the user's text.
pub fn new_packets_customized_no_payload(last_index: &u64, user_sql: &str) -> (r: String)
    ensures
        r@ == spec_customized_no_payload(*last_index, user_sql@),
{
    let trimmed = trim_chars(user_sql);
    let num = u64_to_string(*last_index);
    if is_full_select(trimmed) {
        let clean = strip_stmt_end(trimmed);
        let mut s = String::from_str("SELECT ");
        s.append(target_cols());
        s.append(" FROM (");
        s.append(clean);
        s.append(") AS user_view WHERE index > ");
        s.append(num.as_str());
        s.append(" ORDER BY index ASC");
        proof {
            assert(s@ =~= spec_customized_no_payload(*last_index, user_sql@));
        }
        s
    } else {
        let cond: &str = if trimmed.unicode_len() == 0 {
            "1=1"
        } else {
            trimmed
        };
        let mut s = String::from_str("SELECT ");
        s.append(target_cols());
        s.append(" FROM packets WHERE (");
        s.append(cond);
        s.append(") AND index > ");
        s.append(num.as_str());
        s.append(" ORDER BY index ASC");
        proof {
            assert(s@ =~= spec_customized_no_payload(*last_index, user_sql@));
        }
        s
    }
}

/// The composed single-row query.
pub open spec fn spec_packet_by_index(index: u64) -> Seq<char> {
    "SELECT * FROM packets WHERE index = "@ + dec_digits(index) + " LIMIT 1"@
}

/// The query for the one row with the given index, payload included.
pub fn get_packet_by_index(index: u64) -> (r: String)
    ensures
        r@ == spec_packet_by_index(index),
{
    let mut s = String::from_str("SELECT * FROM packets WHERE index = ");
    let num = u64_to_string(index);
    s.append(num.as_str());
    s.append(" LIMIT 1");
    proof {
        assert(s@ =~= spec_packet_by_index(index));
    }
    s
}

/// Law: wrapping a full query depends on the user text only through the
/// embedded subquery. For any cursor and any input that reads as a full
/// query, the composed string is exactly the fixed projection prefix, then
/// the trimmed and terminator-stripped user text, then the fixed cursor
/// filter and ordering suffix; so two such inputs yield structurally
/// identical outer queries, differing only in the embedded text.
pub proof fn lemma_query_wrapping_structure(last_index: u64, user_sql: Seq<char>)
    requires
        starts_with_select_ci(spec_trim(user_sql)),
    ensures
        spec_customized_no_payload(last_index, user_sql) == spec_wrap_prefix()
            + spec_strip_stmt_end(spec_trim(user_sql)) + spec_wrap_suffix(last_index),
{
}

} // verus!
