//! The collaborator-backed table: a typed columnar table built from the
//! stored rows, and relational query execution against a snapshot of it.
//! The query engine itself is outside this library; everything it is trusted
//! for is stated on the small wrappers here, and the row/column conversions
//! around it are verified.

use vstd::prelude::*;
use polars::prelude::{DataFrame, IntoLazy, NamedFrom, PolarsError, Series};
use crate::models::{PacketData, PacketDataFrontend, PacketFrontendModel, PacketModel, QueryError};

verus! {

#[verifier::external_type_specification]
#[verifier::external_body]
pub struct ExDataFrame(DataFrame);

#[verifier::external_type_specification]
#[verifier::external_body]
pub struct ExSeries(Series);

#[verifier::external_type_specification]
#[verifier::external_body]
pub struct ExPolarsError(PolarsError);

/// One cell of the columnar table, as the contracts model it.
pub enum CellValue {
    U64(u64),
    I64(i64),
    U32(u32),
    I32(i32),
    Bool(bool),
    Text(Seq<char>),
    Bin(Seq<u8>),
    Null,
}

/// What a table holds: its columns in order, each a name and its cells.
pub uninterp spec fn df_cols(df: DataFrame) -> Seq<(Seq<char>, Seq<CellValue>)>;

/// What one column holds.
pub uninterp spec fn col_cells(c: Series) -> Seq<CellValue>;

pub open spec fn u64_cells(v: Seq<u64>) -> Seq<CellValue> {
    v.map_values(|x: u64| CellValue::U64(x))
}

pub open spec fn i64_cells(v: Seq<i64>) -> Seq<CellValue> {
    v.map_values(|x: i64| CellValue::I64(x))
}

pub open spec fn u32_cells(v: Seq<u32>) -> Seq<CellValue> {
    v.map_values(|x: u32| CellValue::U32(x))
}

pub open spec fn i32_cells(v: Seq<i32>) -> Seq<CellValue> {
    v.map_values(|x: i32| CellValue::I32(x))
}

pub open spec fn bool_cells(v: Seq<bool>) -> Seq<CellValue> {
    v.map_values(|x: bool| CellValue::Bool(x))
}

pub open spec fn text_cells(v: Seq<Seq<char>>) -> Seq<CellValue> {
    v.map_values(|x: Seq<char>| CellValue::Text(x))
}

pub open spec fn bin_cells(v: Seq<Seq<u8>>) -> Seq<CellValue> {
    v.map_values(|x: Seq<u8>| CellValue::Bin(x))
}

/// The views of a sequence of strings.
pub open spec fn strs_view(v: Seq<String>) -> Seq<Seq<char>> {
    v.map_values(|s: String| s@)
}

/// The views of a sequence of byte vectors.
pub open spec fn bins_view(v: Seq<Vec<u8>>) -> Seq<Seq<u8>> {
    v.map_values(|b: Vec<u8>| b@)
}

/// The fixed column layout of the capture table, built from the fourteen
/// field columns.
pub open spec fn capture_cols(
    idx: Seq<u64>,
    ts: Seq<i64>,
    uuid: Seq<Seq<char>>,
    src_ip: Seq<Seq<char>>,
    src_port: Seq<u32>,
    dst_ip: Seq<Seq<char>>,
    dst_port: Seq<u32>,
    pid: Seq<i32>,
    pname: Seq<Seq<char>>,
    kind: Seq<u32>,
    length: Seq<u32>,
    is_binary: Seq<bool>,
    payload_utf8: Seq<Seq<char>>,
    payload_binary: Seq<Seq<u8>>,
) -> Seq<(Seq<char>, Seq<CellValue>)> {
    seq![
        ("index"@, u64_cells(idx)),
        ("timestamp"@, i64_cells(ts)),
        ("uuid"@, text_cells(uuid)),
        ("src_ip"@, text_cells(src_ip)),
        ("src_port"@, u32_cells(src_port)),
        ("dst_ip"@, text_cells(dst_ip)),
        ("dst_port"@, u32_cells(dst_port)),
        ("pid"@, i32_cells(pid)),
        ("pname"@, text_cells(pname)),
        ("type"@, u32_cells(kind)),
        ("length"@, u32_cells(length)),
        ("is_binary"@, bool_cells(is_binary)),
        ("payload_utf8"@, text_cells(payload_utf8)),
        ("payload_binary"@, bin_cells(payload_binary)),
    ]
}

/// Relies on polars' `DataFrame::new` and `Series::new`: builds the capture
/// table with exactly these fourteen named columns in order; construction
/// succeeds whenever all columns have the same height (the names are
/// distinct by construction).
#[verifier::external_body]
pub fn build_table_df(
    idx: Vec<u64>,
    ts: Vec<i64>,
    uuid: Vec<String>,
    src_ip: Vec<String>,
    src_port: Vec<u32>,
    dst_ip: Vec<String>,
    dst_port: Vec<u32>,
    pid: Vec<i32>,
    pname: Vec<String>,
    kind: Vec<u32>,
    length: Vec<u32>,
    is_binary: Vec<bool>,
    payload_utf8: Vec<String>,
    payload_binary: Vec<Vec<u8>>,
) -> (r: Result<DataFrame, PolarsError>)
    ensures
        r matches Ok(df) ==> df_cols(df) == capture_cols(
            idx@,
            ts@,
            strs_view(uuid@),
            strs_view(src_ip@),
            src_port@,
            strs_view(dst_ip@),
            dst_port@,
            pid@,
            strs_view(pname@),
            kind@,
            length@,
            is_binary@,
            strs_view(payload_utf8@),
            bins_view(payload_binary@),
        ),
        (idx@.len() == ts@.len() && idx@.len() == uuid@.len() && idx@.len() == src_ip@.len()
            && idx@.len() == src_port@.len() && idx@.len() == dst_ip@.len() && idx@.len()
            == dst_port@.len() && idx@.len() == pid@.len() && idx@.len() == pname@.len()
            && idx@.len() == kind@.len() && idx@.len() == length@.len() && idx@.len()
            == is_binary@.len() && idx@.len() == payload_utf8@.len() && idx@.len()
            == payload_binary@.len()) ==> r is Ok,
{
    DataFrame::new(vec![
        Series::new("index", idx), Series::new("timestamp", ts),
        Series::new("uuid", uuid), Series::new("src_ip", src_ip),
        Series::new("src_port", src_port), Series::new("dst_ip", dst_ip),
        Series::new("dst_port", dst_port), Series::new("pid", pid),
        Series::new("pname", pname), Series::new("type", kind),
        Series::new("length", length), Series::new("is_binary", is_binary),
        Series::new("payload_utf8", payload_utf8),
        Series::new("payload_binary", payload_binary),
    ])
}

/// Relies on polars' `SQLContext` (`new`, `register`, `execute`) and
/// `LazyFrame::collect`: executes `sql` against a snapshot of `df` bound
/// under the relation name `rel` and materializes the result, or returns the
/// engine's rejection. Nothing is claimed of the result: for unconstrained
/// query text the engine's row order (and, through floating-point
/// aggregates, even values) may depend on the machine, so the callers say
/// only what holds of every outcome, and the verified converters take the
/// result as an argument and fix the conversion per value.
#[verifier::external_body]
pub fn run_table_sql(df: &DataFrame, rel: &str, sql: &str) -> (r: Result<DataFrame, PolarsError>)
{
    let mut ctx = polars::sql::SQLContext::new();
    ctx.register(rel, df.clone().lazy());
    match ctx.execute(sql) {
        Ok(lf) => lf.collect(),
        Err(e) => Err(e),
    }
}

/// Two tables of the same shape stacked: the columns keep their names and
/// each gains the other's cells below its own.
pub open spec fn cols_vstacked(
    a: Seq<(Seq<char>, Seq<CellValue>)>,
    b: Seq<(Seq<char>, Seq<CellValue>)>,
) -> Seq<(Seq<char>, Seq<CellValue>)> {
    Seq::new(a.len(), |i: int| (a[i].0, a[i].1 + b[i].1))
}

/// Relies on polars' `DataFrame::vstack_mut`: on success the rows of `other`
/// are appended below this table's, column by column (a width-zero table
/// simply takes the other's columns). On an error — mismatched width, names
/// or column types — the table may be left partially extended, so nothing is
/// claimed of it and the caller must rebuild.
#[verifier::external_body]
pub fn df_vstack(df: &mut DataFrame, other: &DataFrame) -> (r: Result<(), PolarsError>)
    ensures
        r is Ok ==> df_cols(*final(df)) == (if df_cols(*old(df)).len() == 0 {
            df_cols(*other)
        } else {
            cols_vstacked(df_cols(*old(df)), df_cols(*other))
        }),
{
    match df.vstack_mut(other) {
        Ok(u) => Ok(()),
        Err(e) => Err(e),
    }
}

/// Relies on `PolarsError`'s `Display` implementation for the engine's own
/// message text.
#[verifier::external_body]
pub fn polars_err_message(e: &PolarsError) -> String {
    format!("{}", e)
}

/// The cells of the first column named `name`, if any.
pub open spec fn col_of(cols: Seq<(Seq<char>, Seq<CellValue>)>, name: Seq<char>) -> Option<
    Seq<CellValue>,
>
    decreases cols.len(),
{
    if cols.len() == 0 {
        None
    } else if cols[0].0 == name {
        Some(cols[0].1)
    } else {
        col_of(cols.skip(1), name)
    }
}

/// Relies on polars' `DataFrame::column`: returns the column with that name
/// exactly when the table has one (column names in a table are unique).
#[verifier::external_body]
pub fn df_get_col<'a>(df: &'a DataFrame, name: &str) -> (r: Option<&'a Series>)
    ensures
        match r {
            Some(c) => col_of(df_cols(*df), name@) == Some(col_cells(*c)),
            None => col_of(df_cols(*df), name@) is None,
        },
{
    df.column(name).ok()
}

pub open spec fn all_u64(cells: Seq<CellValue>) -> bool {
    forall|i: int| 0 <= i < cells.len() ==> cells[i] is U64
}

pub open spec fn cell_u64(c: CellValue) -> u64 {
    match c {
        CellValue::U64(x) => x,
        _ => 0,
    }
}

pub open spec fn cells_u64(cells: Seq<CellValue>) -> Seq<u64> {
    cells.map_values(|c: CellValue| cell_u64(c))
}

pub open spec fn all_i64(cells: Seq<CellValue>) -> bool {
    forall|i: int| 0 <= i < cells.len() ==> cells[i] is I64
}

pub open spec fn cell_i64(c: CellValue) -> i64 {
    match c {
        CellValue::I64(x) => x,
        _ => 0,
    }
}

pub open spec fn cells_i64(cells: Seq<CellValue>) -> Seq<i64> {
    cells.map_values(|c: CellValue| cell_i64(c))
}

pub open spec fn all_u32(cells: Seq<CellValue>) -> bool {
    forall|i: int| 0 <= i < cells.len() ==> cells[i] is U32
}

pub open spec fn cell_u32(c: CellValue) -> u32 {
    match c {
        CellValue::U32(x) => x,
        _ => 0,
    }
}

pub open spec fn cells_u32(cells: Seq<CellValue>) -> Seq<u32> {
    cells.map_values(|c: CellValue| cell_u32(c))
}

pub open spec fn all_i32(cells: Seq<CellValue>) -> bool {
    forall|i: int| 0 <= i < cells.len() ==> cells[i] is I32
}

pub open spec fn cell_i32(c: CellValue) -> i32 {
    match c {
        CellValue::I32(x) => x,
        _ => 0,
    }
}

pub open spec fn cells_i32(cells: Seq<CellValue>) -> Seq<i32> {
    cells.map_values(|c: CellValue| cell_i32(c))
}

pub open spec fn all_bool(cells: Seq<CellValue>) -> bool {
    forall|i: int| 0 <= i < cells.len() ==> cells[i] is Bool
}

pub open spec fn cell_bool(c: CellValue) -> bool {
    match c {
        CellValue::Bool(x) => x,
        _ => false,
    }
}

pub open spec fn cells_bool(cells: Seq<CellValue>) -> Seq<bool> {
    cells.map_values(|c: CellValue| cell_bool(c))
}

pub open spec fn all_text(cells: Seq<CellValue>) -> bool {
    forall|i: int| 0 <= i < cells.len() ==> cells[i] is Text
}

pub open spec fn cell_text(c: CellValue) -> Seq<char> {
    match c {
        CellValue::Text(x) => x,
        _ => Seq::empty(),
    }
}

pub open spec fn cells_text(cells: Seq<CellValue>) -> Seq<Seq<char>> {
    cells.map_values(|c: CellValue| cell_text(c))
}

pub open spec fn all_bin(cells: Seq<CellValue>) -> bool {
    forall|i: int| 0 <= i < cells.len() ==> cells[i] is Bin
}

pub open spec fn cell_bin(c: CellValue) -> Seq<u8> {
    match c {
        CellValue::Bin(x) => x,
        _ => Seq::empty(),
    }
}

pub open spec fn cells_bin(cells: Seq<CellValue>) -> Seq<Seq<u8>> {
    cells.map_values(|c: CellValue| cell_bin(c))
}

/// Relies on polars' typed column accessor `Series::u64` and the column's
/// iterator: yields every cell in order when the column is unsigned 64-bit
/// with no missing values. The accessor tests the column's type, not its
/// cells, so a zero-row column of another type also comes back empty-handed.
#[verifier::external_body]
pub fn col_u64s(c: &Series) -> (r: Option<Vec<u64>>)
    ensures
        match r {
            Some(v) => all_u64(col_cells(*c)) && v@ == cells_u64(col_cells(*c)),
            None => !all_u64(col_cells(*c)) || col_cells(*c).len() == 0,
        },
{
    c.u64().ok()?.into_iter().collect::<Option<Vec<u64>>>()
}

/// Relies on polars' `Series::i64` and the column's iterator, as `col_u64s`.
#[verifier::external_body]
pub fn col_i64s(c: &Series) -> (r: Option<Vec<i64>>)
    ensures
        match r {
            Some(v) => all_i64(col_cells(*c)) && v@ == cells_i64(col_cells(*c)),
            None => !all_i64(col_cells(*c)) || col_cells(*c).len() == 0,
        },
{
    c.i64().ok()?.into_iter().collect::<Option<Vec<i64>>>()
}

/// Relies on polars' `Series::u32` and the column's iterator, as `col_u64s`.
#[verifier::external_body]
pub fn col_u32s(c: &Series) -> (r: Option<Vec<u32>>)
    ensures
        match r {
            Some(v) => all_u32(col_cells(*c)) && v@ == cells_u32(col_cells(*c)),
            None => !all_u32(col_cells(*c)) || col_cells(*c).len() == 0,
        },
{
    c.u32().ok()?.into_iter().collect::<Option<Vec<u32>>>()
}

/// Relies on polars' `Series::i32` and the column's iterator, as `col_u64s`.
#[verifier::external_body]
pub fn col_i32s(c: &Series) -> (r: Option<Vec<i32>>)
    ensures
        match r {
            Some(v) => all_i32(col_cells(*c)) && v@ == cells_i32(col_cells(*c)),
            None => !all_i32(col_cells(*c)) || col_cells(*c).len() == 0,
        },
{
    c.i32().ok()?.into_iter().collect::<Option<Vec<i32>>>()
}

/// Relies on polars' `Series::bool` and the column's iterator, as `col_u64s`.
#[verifier::external_body]
pub fn col_bools(c: &Series) -> (r: Option<Vec<bool>>)
    ensures
        match r {
            Some(v) => all_bool(col_cells(*c)) && v@ == cells_bool(col_cells(*c)),
            None => !all_bool(col_cells(*c)) || col_cells(*c).len() == 0,
        },
{
    c.bool().ok()?.into_iter().collect::<Option<Vec<bool>>>()
}

/// Relies on polars' `Series::str` and the column's iterator, as `col_u64s`.
#[verifier::external_body]
pub fn col_strs(c: &Series) -> (r: Option<Vec<String>>)
    ensures
        match r {
            Some(v) => all_text(col_cells(*c)) && strs_view(v@) == cells_text(col_cells(*c)),
            None => !all_text(col_cells(*c)) || col_cells(*c).len() == 0,
        },
{
    c.str().ok()?.into_iter().map(|o| o.map(|s| s.to_string())).collect::<Option<Vec<String>>>()
}

/// Relies on polars' `Series::binary` and the column's iterator, as
/// `col_u64s`.
#[verifier::external_body]
pub fn col_bins(c: &Series) -> (r: Option<Vec<Vec<u8>>>)
    ensures
        match r {
            Some(v) => all_bin(col_cells(*c)) && bins_view(v@) == cells_bin(col_cells(*c)),
            None => !all_bin(col_cells(*c)) || col_cells(*c).len() == 0,
        },
{
    c.binary().ok()?.into_iter().map(|o| o.map(|b| b.to_vec())).collect::<Option<Vec<Vec<u8>>>>()
}


/// The cells of the column named `name`, as 64-bit unsigned values, if the
/// table has such a column and every cell is one.
pub open spec fn got_u64(cols: Seq<(Seq<char>, Seq<CellValue>)>, name: Seq<char>) -> Option<
    Seq<u64>,
> {
    match col_of(cols, name) {
        Some(cells) => if all_u64(cells) {
            Some(cells_u64(cells))
        } else {
            None
        },
        None => None,
    }
}

pub open spec fn got_i64(cols: Seq<(Seq<char>, Seq<CellValue>)>, name: Seq<char>) -> Option<
    Seq<i64>,
> {
    match col_of(cols, name) {
        Some(cells) => if all_i64(cells) {
            Some(cells_i64(cells))
        } else {
            None
        },
        None => None,
    }
}

pub open spec fn got_u32(cols: Seq<(Seq<char>, Seq<CellValue>)>, name: Seq<char>) -> Option<
    Seq<u32>,
> {
    match col_of(cols, name) {
        Some(cells) => if all_u32(cells) {
            Some(cells_u32(cells))
        } else {
            None
        },
        None => None,
    }
}

pub open spec fn got_i32(cols: Seq<(Seq<char>, Seq<CellValue>)>, name: Seq<char>) -> Option<
    Seq<i32>,
> {
    match col_of(cols, name) {
        Some(cells) => if all_i32(cells) {
            Some(cells_i32(cells))
        } else {
            None
        },
        None => None,
    }
}

pub open spec fn got_bool(cols: Seq<(Seq<char>, Seq<CellValue>)>, name: Seq<char>) -> Option<
    Seq<bool>,
> {
    match col_of(cols, name) {
        Some(cells) => if all_bool(cells) {
            Some(cells_bool(cells))
        } else {
            None
        },
        None => None,
    }
}

pub open spec fn got_text(cols: Seq<(Seq<char>, Seq<CellValue>)>, name: Seq<char>) -> Option<
    Seq<Seq<char>>,
> {
    match col_of(cols, name) {
        Some(cells) => if all_text(cells) {
            Some(cells_text(cells))
        } else {
            None
        },
        None => None,
    }
}

pub open spec fn got_bin(cols: Seq<(Seq<char>, Seq<CellValue>)>, name: Seq<char>) -> Option<
    Seq<Seq<u8>>,
> {
    match col_of(cols, name) {
        Some(cells) => if all_bin(cells) {
            Some(cells_bin(cells))
        } else {
            None
        },
        None => None,
    }
}

fn get_u64_col(df: &DataFrame, name: &str) -> (r: Option<Vec<u64>>)
    ensures
        match r {
            Some(v) => got_u64(df_cols(*df), name@) == Some(v@),
            None => got_u64(df_cols(*df), name@) is None || (got_u64(df_cols(*df), name@) matches Some(
                cells,
            ) && cells.len() == 0),
        },
{
    match df_get_col(df, name) {
        Some(c) => col_u64s(c),
        None => None,
    }
}

fn get_i64_col(df: &DataFrame, name: &str) -> (r: Option<Vec<i64>>)
    ensures
        match r {
            Some(v) => got_i64(df_cols(*df), name@) == Some(v@),
            None => got_i64(df_cols(*df), name@) is None || (got_i64(df_cols(*df), name@) matches Some(
                cells,
            ) && cells.len() == 0),
        },
{
    match df_get_col(df, name) {
        Some(c) => col_i64s(c),
        None => None,
    }
}

fn get_u32_col(df: &DataFrame, name: &str) -> (r: Option<Vec<u32>>)
    ensures
        match r {
            Some(v) => got_u32(df_cols(*df), name@) == Some(v@),
            None => got_u32(df_cols(*df), name@) is None || (got_u32(df_cols(*df), name@) matches Some(
                cells,
            ) && cells.len() == 0),
        },
{
    match df_get_col(df, name) {
        Some(c) => col_u32s(c),
        None => None,
    }
}

fn get_i32_col(df: &DataFrame, name: &str) -> (r: Option<Vec<i32>>)
    ensures
        match r {
            Some(v) => got_i32(df_cols(*df), name@) == Some(v@),
            None => got_i32(df_cols(*df), name@) is None || (got_i32(df_cols(*df), name@) matches Some(
                cells,
            ) && cells.len() == 0),
        },
{
    match df_get_col(df, name) {
        Some(c) => col_i32s(c),
        None => None,
    }
}

fn get_bool_col(df: &DataFrame, name: &str) -> (r: Option<Vec<bool>>)
    ensures
        match r {
            Some(v) => got_bool(df_cols(*df), name@) == Some(v@),
            None => got_bool(df_cols(*df), name@) is None || (got_bool(df_cols(*df), name@) matches Some(
                cells,
            ) && cells.len() == 0),
        },
{
    match df_get_col(df, name) {
        Some(c) => col_bools(c),
        None => None,
    }
}

fn get_text_col(df: &DataFrame, name: &str) -> (r: Option<Vec<String>>)
    ensures
        match r {
            Some(v) => got_text(df_cols(*df), name@) == Some(strs_view(v@)),
            None => got_text(df_cols(*df), name@) is None || (got_text(df_cols(*df), name@) matches Some(
                cells,
            ) && cells.len() == 0),
        },
{
    match df_get_col(df, name) {
        Some(c) => col_strs(c),
        None => None,
    }
}

fn get_bin_col(df: &DataFrame, name: &str) -> (r: Option<Vec<Vec<u8>>>)
    ensures
        match r {
            Some(v) => got_bin(df_cols(*df), name@) == Some(bins_view(v@)),
            None => got_bin(df_cols(*df), name@) is None || (got_bin(df_cols(*df), name@) matches Some(
                cells,
            ) && cells.len() == 0),
        },
{
    match df_get_col(df, name) {
        Some(c) => col_bins(c),
        None => None,
    }
}

/// The rows of a query result in the fixed payload-free projection, if the
/// result has exactly that shape.
pub open spec fn frontend_rows_of(cols: Seq<(Seq<char>, Seq<CellValue>)>) -> Option<
    Seq<PacketFrontendModel>,
> {
    let idx = got_u64(cols, "index"@);
    let ts = got_i64(cols, "timestamp"@);
    let uuid = got_text(cols, "uuid"@);
    let sip = got_text(cols, "src_ip"@);
    let sport = got_u32(cols, "src_port"@);
    let dip = got_text(cols, "dst_ip"@);
    let dport = got_u32(cols, "dst_port"@);
    let pid = got_i32(cols, "pid"@);
    let pname = got_text(cols, "pname"@);
    let kind = got_u32(cols, "type"@);
    let length = got_u32(cols, "length"@);
    let isb = got_bool(cols, "is_binary"@);
    if idx is Some && ts is Some && uuid is Some && sip is Some && sport is Some && dip is Some
        && dport is Some && pid is Some && pname is Some && kind is Some && length is Some
        && isb is Some {
        let n = idx.unwrap().len();
        if ts.unwrap().len() == n && uuid.unwrap().len() == n && sip.unwrap().len() == n
            && sport.unwrap().len() == n && dip.unwrap().len() == n && dport.unwrap().len() == n
            && pid.unwrap().len() == n && pname.unwrap().len() == n && kind.unwrap().len() == n
            && length.unwrap().len() == n && isb.unwrap().len() == n {
            Some(
                Seq::new(
                    n,
                    |k: int|
                        PacketFrontendModel {
                            index: idx.unwrap()[k],
                            timestamp: ts.unwrap()[k],
                            uuid: uuid.unwrap()[k],
                            src_ip: sip.unwrap()[k],
                            src_port: sport.unwrap()[k],
                            dst_ip: dip.unwrap()[k],
                            dst_port: dport.unwrap()[k],
                            pid: pid.unwrap()[k],
                            pname: pname.unwrap()[k],
                            kind: kind.unwrap()[k],
                            length: length.unwrap()[k],
                            is_binary: isb.unwrap()[k],
                        },
                ),
            )
        } else {
            None
        }
    } else {
        None
    }
}

/// Convert a query result into payload-free records, one per row. Fails with
/// `BadShape` when the result does not have the fixed projection's shape; on
/// a table of zero height a column's type is invisible to the model, so
/// there the rejection is only known to concern an empty result.
pub fn df_to_packet_data_frontend_vec(df: &DataFrame) -> (r: Result<
    Vec<PacketDataFrontend>,
    QueryError,
>)
    ensures
        match r {
            Ok(v) => frontend_rows_of(df_cols(*df)) matches Some(rows) && v@.len() == rows.len()
                && (forall|j: int| 0 <= j < rows.len() ==> v@[j]@ == rows[j]),
            Err(e) => e == QueryError::BadShape && (frontend_rows_of(df_cols(*df)) is None || (
            frontend_rows_of(df_cols(*df)) matches Some(rows) && rows.len() == 0)),
        },
{
    let idx = match get_u64_col(df, "index") {
        Some(v) => v,
        None => {
            return Err(QueryError::BadShape);
        },
    };
    let ts = match get_i64_col(df, "timestamp") {
        Some(v) => v,
        None => {
            return Err(QueryError::BadShape);
        },
    };
    let uuid = match get_text_col(df, "uuid") {
        Some(v) => v,
        None => {
            return Err(QueryError::BadShape);
        },
    };
    let sip = match get_text_col(df, "src_ip") {
        Some(v) => v,
        None => {
            return Err(QueryError::BadShape);
        },
    };
    let sport = match get_u32_col(df, "src_port") {
        Some(v) => v,
        None => {
            return Err(QueryError::BadShape);
        },
    };
    let dip = match get_text_col(df, "dst_ip") {
        Some(v) => v,
        None => {
            return Err(QueryError::BadShape);
        },
    };
    let dport = match get_u32_col(df, "dst_port") {
        Some(v) => v,
        None => {
            return Err(QueryError::BadShape);
        },
    };
    let pid = match get_i32_col(df, "pid") {
        Some(v) => v,
        None => {
            return Err(QueryError::BadShape);
        },
    };
    let pname = match get_text_col(df, "pname") {
        Some(v) => v,
        None => {
            return Err(QueryError::BadShape);
        },
    };
    let kind = match get_u32_col(df, "type") {
        Some(v) => v,
        None => {
            return Err(QueryError::BadShape);
        },
    };
    let length = match get_u32_col(df, "length") {
        Some(v) => v,
        None => {
            return Err(QueryError::BadShape);
        },
    };
    let isb = match get_bool_col(df, "is_binary") {
        Some(v) => v,
        None => {
            return Err(QueryError::BadShape);
        },
    };
    let n = idx.len();
    if !(ts.len() == n && uuid.len() == n && sip.len() == n && sport.len() == n && dip.len() == n
        && dport.len() == n && pid.len() == n && pname.len() == n && kind.len() == n && length.len()
        == n && isb.len() == n) {
        return Err(QueryError::BadShape);
    }
    let ghost rows = frontend_rows_of(df_cols(*df)).unwrap();
    let mut out: Vec<PacketDataFrontend> = Vec::new();
    let mut k: usize = 0;
    while k < n
        invariant
            n == idx@.len(),
            ts@.len() == n && uuid@.len() == n && sip@.len() == n && sport@.len() == n
                && dip@.len() == n && dport@.len() == n && pid@.len() == n && pname@.len() == n
                && kind@.len() == n && length@.len() == n && isb@.len() == n,
            k <= n,
            rows.len() == n,
            forall|j: int|
                0 <= j < n ==> rows[j] == (PacketFrontendModel {
                    index: idx@[j],
                    timestamp: ts@[j],
                    uuid: uuid@[j]@,
                    src_ip: sip@[j]@,
                    src_port: sport@[j],
                    dst_ip: dip@[j]@,
                    dst_port: dport@[j],
                    pid: pid@[j],
                    pname: pname@[j]@,
                    kind: kind@[j],
                    length: length@[j],
                    is_binary: isb@[j],
                }),
            out@.len() == k,
            forall|j: int| 0 <= j < k ==> out@[j]@ == rows[j],
        decreases n - k,
    {
        let rec = PacketDataFrontend {
            index: idx[k],
            timestamp: ts[k],
            uuid: uuid[k].clone(),
            src_ip: sip[k].clone(),
            src_port: sport[k],
            dst_ip: dip[k].clone(),
            dst_port: dport[k],
            pid: pid[k],
            pname: pname[k].clone(),
            kind: kind[k],
            length: length[k],
            is_binary: isb[k],
        };
        out.push(rec);
        k = k + 1;
    }
    Ok(out)
}

/// The rows of a query result carrying all fourteen columns, if the result
/// has exactly that shape.
pub open spec fn rows_of(cols: Seq<(Seq<char>, Seq<CellValue>)>) -> Option<Seq<PacketModel>> {
    let fr = frontend_rows_of(cols);
    let ptxt = got_text(cols, "payload_utf8"@);
    let pbin = got_bin(cols, "payload_binary"@);
    if fr is Some && ptxt is Some && pbin is Some && ptxt.unwrap().len() == fr.unwrap().len()
        && pbin.unwrap().len() == fr.unwrap().len() {
        Some(
            Seq::new(
                fr.unwrap().len(),
                |k: int|
                    PacketModel {
                        index: fr.unwrap()[k].index,
                        timestamp: fr.unwrap()[k].timestamp,
                        uuid: fr.unwrap()[k].uuid,
                        src_ip: fr.unwrap()[k].src_ip,
                        src_port: fr.unwrap()[k].src_port,
                        dst_ip: fr.unwrap()[k].dst_ip,
                        dst_port: fr.unwrap()[k].dst_port,
                        pid: fr.unwrap()[k].pid,
                        pname: fr.unwrap()[k].pname,
                        kind: fr.unwrap()[k].kind,
                        length: fr.unwrap()[k].length,
                        is_binary: fr.unwrap()[k].is_binary,
                        payload_utf8: ptxt.unwrap()[k],
                        payload_binary: pbin.unwrap()[k],
                    },
            ),
        )
    } else {
        None
    }
}

/// Convert a query result into full records, payload included. Fails with
/// `BadShape` when the result does not carry the full column set (on a
/// zero-height table only the emptiness of the rejected result is known, as
/// above). A missing cell in any column is a shape violation and is rejected
/// rather than substituted with a default.
pub fn df_to_packet_data_vec(df: &DataFrame) -> (r: Result<Vec<PacketData>, QueryError>)
    ensures
        match r {
            Ok(v) => rows_of(df_cols(*df)) matches Some(rows) && v@.len() == rows.len() && (
            forall|j: int| 0 <= j < rows.len() ==> v@[j]@ == rows[j]),
            Err(e) => e == QueryError::BadShape && (rows_of(df_cols(*df)) is None || (rows_of(
                df_cols(*df),
            ) matches Some(rows) && rows.len() == 0)),
        },
{
    let front = match df_to_packet_data_frontend_vec(df) {
        Ok(v) => v,
        Err(e) => {
            return Err(QueryError::BadShape);
        },
    };
    let ptxt = match get_text_col(df, "payload_utf8") {
        Some(v) => v,
        None => {
            return Err(QueryError::BadShape);
        },
    };
    let pbin = match get_bin_col(df, "payload_binary") {
        Some(v) => v,
        None => {
            return Err(QueryError::BadShape);
        },
    };
    let n = front.len();
    if !(ptxt.len() == n && pbin.len() == n) {
        return Err(QueryError::BadShape);
    }
    let ghost rows = rows_of(df_cols(*df)).unwrap();
    let mut out: Vec<PacketData> = Vec::new();
    let mut k: usize = 0;
    while k < n
        invariant
            n == front@.len(),
            ptxt@.len() == n && pbin@.len() == n,
            k <= n,
            rows.len() == n,
            forall|j: int|
                0 <= j < n ==> rows[j] == (PacketModel {
                    index: front@[j]@.index,
                    timestamp: front@[j]@.timestamp,
                    uuid: front@[j]@.uuid,
                    src_ip: front@[j]@.src_ip,
                    src_port: front@[j]@.src_port,
                    dst_ip: front@[j]@.dst_ip,
                    dst_port: front@[j]@.dst_port,
                    pid: front@[j]@.pid,
                    pname: front@[j]@.pname,
                    kind: front@[j]@.kind,
                    length: front@[j]@.length,
                    is_binary: front@[j]@.is_binary,
                    payload_utf8: ptxt@[j]@,
                    payload_binary: pbin@[j]@,
                }),
            out@.len() == k,
            forall|j: int| 0 <= j < k ==> out@[j]@ == rows[j],
        decreases n - k,
    {
        let f = &front[k];
        let rec = PacketData {
            index: f.index,
            timestamp: f.timestamp,
            uuid: f.uuid.clone(),
            src_ip: f.src_ip.clone(),
            src_port: f.src_port,
            dst_ip: f.dst_ip.clone(),
            dst_port: f.dst_port,
            pid: f.pid,
            pname: f.pname.clone(),
            kind: f.kind,
            length: f.length,
            is_binary: f.is_binary,
            payload_utf8: ptxt[k].clone(),
            payload_binary: clone_bytes(&pbin[k]),
        };
        out.push(rec);
        k = k + 1;
    }
    Ok(out)
}

/// A copy of a byte vector with the same contents.
pub fn clone_bytes(v: &Vec<u8>) -> (r: Vec<u8>)
    ensures
        r@ == v@,
{
    vstd::slice::slice_to_vec(v.as_slice())
}


} // verus!
