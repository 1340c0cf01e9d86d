//! The SQLite connection (through `rusqlite`) and the plain values that cross
//! it: statement parameters going in, and result columns coming out, read
//! by `rusqlite` as the Rust types asked for.
//!
//! Every result that comes back from the connection depends on what the
//! database file holds, so the trusted items below promise nothing about the
//! rows or counts they return; the verified code states what it does with
//! whatever came back.
use vstd::prelude::*;

verus! {

/// `rusqlite::Connection`, held opaquely.
#[verifier::external_type_specification]
#[verifier::external_body]
pub struct ExConnection(rusqlite::Connection);

/// `rusqlite::Error`, held opaquely.
#[verifier::external_type_specification]
#[verifier::external_body]
pub struct ExSqlError(rusqlite::Error);

/// `rusqlite::Statement`, held opaquely.
#[verifier::external_type_specification]
#[verifier::external_body]
pub struct ExStatement<'conn>(rusqlite::Statement<'conn>);

/// `rusqlite::Transaction`, held opaquely.
#[verifier::external_type_specification]
#[verifier::external_body]
pub struct ExTransaction<'conn>(rusqlite::Transaction<'conn>);

/// `rusqlite::types::Value`, held opaquely.
#[verifier::external_type_specification]
#[verifier::external_body]
pub struct ExValue(rusqlite::types::Value);

/// A statement parameter.
pub enum SqlParam {
    Null,
    Integer(i64),
    Text(String),
}

/// A statement parameter as a plain value.
pub enum ParamValue {
    Null,
    Integer(i64),
    Text(Seq<char>),
}

pub open spec fn param_value_of(p: SqlParam) -> ParamValue {
    match p {
        SqlParam::Null => ParamValue::Null,
        SqlParam::Integer(i) => ParamValue::Integer(i),
        SqlParam::Text(s) => ParamValue::Text(s@),
    }
}

/// A statement as plain values: its SQL text and its parameters.
pub type StatementView = (Seq<char>, Seq<ParamValue>);

/// A statement to run: its SQL text and its positional parameters.
pub struct SqlStatement {
    pub sql: String,
    pub params: Vec<SqlParam>,
}

impl SqlStatement {
    /// The statement as plain values: (SQL text, parameters).
    pub open spec fn view(&self) -> StatementView {
        (self.sql@, self.params@.map_values(|p: SqlParam| param_value_of(p)))
    }
}

/// A parameter as the `rusqlite::types::Value` of the same kind
/// (`Null`, `Integer`, `Text`); a conversion with nothing to state, since the
/// result is opaque.
#[verifier::external_body]
fn param_value(p: &SqlParam) -> rusqlite::types::Value {
    match p {
        SqlParam::Null => rusqlite::types::Value::Null,
        SqlParam::Integer(i) => rusqlite::types::Value::Integer(*i),
        SqlParam::Text(s) => rusqlite::types::Value::Text(s.clone()),
    }
}

/// `rusqlite::Connection::open`: opens (creating if needed) the database at
/// `path`; `":memory:"` opens a private in-memory database. Whether it
/// succeeds depends on the file system, so nothing is promised.
#[verifier::external_body]
pub(crate) fn open_connection(path: &str) -> (r: Result<rusqlite::Connection, rusqlite::Error>) {
    rusqlite::Connection::open(path)
}

/// `rusqlite::Connection::execute_batch`: runs the statements of `sql` in
/// order. Its outcome depends on the database, so nothing is promised.
#[verifier::external_body]
pub(crate) fn execute_batch(conn: &rusqlite::Connection, sql: &str) -> (r: Result<(), rusqlite::Error>) {
    conn.execute_batch(sql)
}

/// `rusqlite::Connection::execute`: runs one statement with positional
/// parameters `?1, ?2, …` bound to `params` in order; returns the number of
/// changed rows, which depends on the database and is not promised.
#[verifier::external_body]
pub(crate) fn execute(conn: &rusqlite::Connection, sql: &str, params: &[SqlParam]) -> (r: Result<
    usize,
    rusqlite::Error,
>) {
    conn.execute(sql, rusqlite::params_from_iter(params.iter().map(param_value)))
}

/// `rusqlite::Connection::last_insert_rowid`: the rowid of the latest
/// successful insert on this connection (0 when there was none); it depends
/// on the database, so nothing is promised.
#[verifier::external_body]
pub(crate) fn last_insert_rowid(conn: &rusqlite::Connection) -> (r: i64) {
    conn.last_insert_rowid()
}

/// `rusqlite::Connection::prepare`: compiles one statement. Whether it
/// compiles depends on the schema, so nothing is promised.
#[verifier::external_body]
pub(crate) fn prepare<'conn>(conn: &'conn rusqlite::Connection, sql: &str) -> (r: Result<
    rusqlite::Statement<'conn>,
    rusqlite::Error,
>) {
    conn.prepare(sql)
}

/// `rusqlite::Connection::unchecked_transaction`: begins a deferred
/// transaction, rolled back when the returned value is dropped without
/// `commit`. Its success depends on the database, so nothing is promised.
#[verifier::external_body]
pub(crate) fn begin_transaction(conn: &rusqlite::Connection) -> (r: Result<
    rusqlite::Transaction<'_>,
    rusqlite::Error,
>) {
    conn.unchecked_transaction()
}

/// `Deref` of `rusqlite::Transaction`: the connection the transaction runs on.
#[verifier::external_body]
pub(crate) fn transaction_connection<'a>(tx: &'a rusqlite::Transaction<'_>) -> (r:
    &'a rusqlite::Connection) {
    tx
}

/// `rusqlite::Transaction::commit`. Its success depends on the database, so
/// nothing is promised.
#[verifier::external_body]
pub(crate) fn commit(tx: rusqlite::Transaction<'_>) -> (r: Result<(), rusqlite::Error>) {
    tx.commit()
}

/// The `Display` text of a `rusqlite::Error`; the error is opaque, so
/// nothing is promised of the text.
#[verifier::external_body]
pub(crate) fn error_text(e: &rusqlite::Error) -> (r: String) {
    format!("{e}")
}

// ---------------------------------------------------------------------------
// Reading columns
// ---------------------------------------------------------------------------

pub open spec fn has_prefix(s: Seq<char>, p: Seq<char>) -> bool {
    p.len() <= s.len() && s.subrange(0, p.len() as int) == p
}

/// The Rust type a result column is read as, with `Row::get`.
#[derive(PartialEq, Eq, Structural, Clone, Copy)]
pub enum ColumnKind {
    /// `i64`
    Int,
    /// `i32`
    Int32,
    /// `String`
    Text,
    /// `Option<i64>`
    OptInt,
    /// `Option<String>`
    OptText,
}

/// A column as it was read.
pub enum Cell {
    Int(i64),
    Int32(i32),
    Text(String),
    OptInt(Option<i64>),
    OptText(Option<String>),
}

/// The kind a cell was read as.
pub open spec fn cell_kind(c: Cell) -> ColumnKind {
    match c {
        Cell::Int(_) => ColumnKind::Int,
        Cell::Int32(_) => ColumnKind::Int32,
        Cell::Text(_) => ColumnKind::Text,
        Cell::OptInt(_) => ColumnKind::OptInt,
        Cell::OptText(_) => ColumnKind::OptText,
    }
}

/// `row` holds one cell per kind of `kinds`, each read as its kind.
pub open spec fn row_of_kinds(row: Seq<Cell>, kinds: Seq<ColumnKind>) -> bool {
    &&& row.len() == kinds.len()
    &&& forall|j: int| 0 <= j < row.len() ==> cell_kind(#[trigger] row[j]) == kinds[j]
}

/// `rusqlite::Statement::query_map` with the parameters bound as in
/// `execute`, each row read column by column with `Row::get` as the kind
/// asked for, and the rows collected one by one. The outer error is that of
/// starting the query; each row is either its cells or the error of
/// stepping to it or of one of its columns (as `Row::get` reports it; after
/// an error the rows end). The rows depend on the database, so only their
/// shape is promised: each is one cell per kind, read as that kind.
#[verifier::external_body]
pub(crate) fn query_cells(
    stmt: &mut rusqlite::Statement<'_>,
    params: &[SqlParam],
    kinds: &[ColumnKind],
) -> (r: Result<Vec<Result<Vec<Cell>, rusqlite::Error>>, rusqlite::Error>)
    ensures
        r matches Ok(rows) ==> forall|i: int|
            0 <= i < rows@.len() ==> (#[trigger] rows@[i] matches Ok(row) ==> row_of_kinds(
                row@,
                kinds@,
            )),
{
    let ps = rusqlite::params_from_iter(params.iter().map(param_value));
    let rows = stmt.query_map(ps, |row| kinds.iter().enumerate().map(|(i, k)| match k {
        ColumnKind::Int => row.get(i).map(Cell::Int),
        ColumnKind::Int32 => row.get(i).map(Cell::Int32),
        ColumnKind::Text => row.get(i).map(Cell::Text),
        ColumnKind::OptInt => row.get(i).map(Cell::OptInt),
        ColumnKind::OptText => row.get(i).map(Cell::OptText),
    }).collect())?;
    Ok(rows.collect())
}

/// The `Display` text of `rusqlite::Error::QueryReturnedNoRows`, what
/// `Connection::query_row` fails with when there is no row: "Query returned
/// no rows".
#[verifier::external_body]
pub(crate) fn no_rows_text() -> (r: String)
    ensures
        r@ == "Query returned no rows"@,
{
    rusqlite::Error::QueryReturnedNoRows.to_string()
}

/// Column `i` read as an `i64`.
pub open spec fn int_at(row: Seq<Cell>, i: int) -> Option<i64> {
    if 0 <= i < row.len() {
        match row[i] {
            Cell::Int(x) => Some(x),
            _ => None,
        }
    } else {
        None
    }
}

/// Column `i` read as an `i32`.
pub open spec fn i32_at(row: Seq<Cell>, i: int) -> Option<i32> {
    if 0 <= i < row.len() {
        match row[i] {
            Cell::Int32(x) => Some(x),
            _ => None,
        }
    } else {
        None
    }
}

/// Column `i` read as a `String`.
pub open spec fn text_at(row: Seq<Cell>, i: int) -> Option<Seq<char>> {
    if 0 <= i < row.len() {
        match row[i] {
            Cell::Text(t) => Some(t@),
            _ => None,
        }
    } else {
        None
    }
}

/// Column `i` read as an `Option<i64>`.
pub open spec fn opt_int_at(row: Seq<Cell>, i: int) -> Option<Option<i64>> {
    if 0 <= i < row.len() {
        match row[i] {
            Cell::OptInt(x) => Some(x),
            _ => None,
        }
    } else {
        None
    }
}

/// The view of an optional string.
pub open spec fn opt_view(o: Option<String>) -> Option<Seq<char>> {
    match o {
        Some(s) => Some(s@),
        None => None,
    }
}

/// Column `i` read as an `Option<String>`.
pub open spec fn opt_text_at(row: Seq<Cell>, i: int) -> Option<Option<Seq<char>>> {
    if 0 <= i < row.len() {
        match row[i] {
            Cell::OptText(x) => Some(opt_view(x)),
            _ => None,
        }
    } else {
        None
    }
}

/// Column `i`, read as an `i64`.
pub fn cell_i64(row: &Vec<Cell>, i: usize) -> (r: i64)
    requires
        i < row@.len(),
        cell_kind(row@[i as int]) == ColumnKind::Int,
    ensures
        int_at(row@, i as int) == Some(r),
{
    match &row[i] {
        Cell::Int(x) => *x,
        _ => 0,
    }
}

/// Column `i`, read as an `i32`.
pub fn cell_i32(row: &Vec<Cell>, i: usize) -> (r: i32)
    requires
        i < row@.len(),
        cell_kind(row@[i as int]) == ColumnKind::Int32,
    ensures
        i32_at(row@, i as int) == Some(r),
{
    match &row[i] {
        Cell::Int32(x) => *x,
        _ => 0,
    }
}

/// Column `i`, read as a `String`.
pub fn cell_text(row: &Vec<Cell>, i: usize) -> (r: String)
    requires
        i < row@.len(),
        cell_kind(row@[i as int]) == ColumnKind::Text,
    ensures
        text_at(row@, i as int) == Some(r@),
{
    match &row[i] {
        Cell::Text(t) => t.clone(),
        _ => String::new(),
    }
}

/// Column `i`, read as an `Option<i64>`.
pub fn cell_opt_i64(row: &Vec<Cell>, i: usize) -> (r: Option<i64>)
    requires
        i < row@.len(),
        cell_kind(row@[i as int]) == ColumnKind::OptInt,
    ensures
        opt_int_at(row@, i as int) == Some(r),
{
    match &row[i] {
        Cell::OptInt(x) => *x,
        _ => None,
    }
}

/// Column `i`, read as an `Option<String>`.
pub fn cell_opt_text(row: &Vec<Cell>, i: usize) -> (r: Option<String>)
    requires
        i < row@.len(),
        cell_kind(row@[i as int]) == ColumnKind::OptText,
    ensures
        opt_text_at(row@, i as int) == Some(opt_view(r)),
{
    match &row[i] {
        Cell::OptText(Some(t)) => Some(t.clone()),
        _ => None,
    }
}

} // verus!
