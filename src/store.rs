//! The SQLite connection and the few calls the catalog makes through it.
//!
//! Statements go out with their parameters as plain values, and rows come
//! back as plain values; what a query returns depends on what the database
//! holds, so the calls promise only the shape of what they hand back.

use vstd::prelude::*;
use vstd::string::*;

verus! {

#[verifier::external_type_specification]
#[verifier::external_body]
pub struct ExSqliteConnection(rusqlite::Connection);

#[verifier::external_type_specification]
#[verifier::external_body]
pub struct ExSqliteError(rusqlite::Error);

#[verifier::external_type_specification]
#[verifier::external_body]
pub struct ExSqliteValue(rusqlite::types::Value);

/// A connection to the catalog database; callers lend one taken from their
/// pool.
pub type DbConnection = rusqlite::Connection;

/// A value bound to a statement parameter.
#[derive(Debug, Clone, PartialEq, Eq)]
pub enum SqlParam {
    Null,
    Integer(i64),
    Text(String),
}

/// A cell of a result row. The library holds no floating-point values, so a
/// `REAL` cell is reported without its value.
#[derive(Debug, Clone, PartialEq, Eq)]
pub enum SqlValue {
    Null,
    Integer(i64),
    Real,
    Text(String),
    Blob(Vec<u8>),
}

/// Why a store operation failed.
#[derive(Debug, Clone, PartialEq, Eq)]
pub enum StoreError {
    /// A unique column (name or audio file) already holds the value.
    Duplicate(String),
    /// Any other failure of the database.
    Failed(String),
}

impl StoreError {
    pub fn message(&self) -> (r: String)
        ensures
            r@ == match self {
                StoreError::Duplicate(m) => m@,
                StoreError::Failed(m) => m@,
            },
    {
        match self {
            StoreError::Duplicate(m) => m.clone(),
            StoreError::Failed(m) => m.clone(),
        }
    }
}

/// Relies on rusqlite's `types::Value` variants: the parameter as the value of
/// the same kind.
#[verifier::external_body]
fn param_value(p: &SqlParam) -> rusqlite::types::Value {
    match p {
        SqlParam::Null => rusqlite::types::Value::Null,
        SqlParam::Integer(i) => rusqlite::types::Value::Integer(*i),
        SqlParam::Text(s) => rusqlite::types::Value::Text(s.clone()),
    }
}

/// Relies on rusqlite's `types::Value` variants: the cell as the value of the
/// same kind, a `REAL` without its number.
#[verifier::external_body]
fn cell_value(v: rusqlite::types::Value) -> SqlValue {
    match v {
        rusqlite::types::Value::Null => SqlValue::Null,
        rusqlite::types::Value::Integer(i) => SqlValue::Integer(i),
        rusqlite::types::Value::Real(_) => SqlValue::Real,
        rusqlite::types::Value::Text(s) => SqlValue::Text(s),
        rusqlite::types::Value::Blob(b) => SqlValue::Blob(b),
    }
}

/// Relies on rusqlite's `Connection::execute_batch`: runs the statements of
/// `sql` one after another.
#[verifier::external_body]
pub(crate) fn execute_batch(conn: &DbConnection, sql: &str) -> Result<(), rusqlite::Error> {
    conn.execute_batch(sql)
}

/// Relies on rusqlite's `Connection::execute`: runs one statement with its
/// parameters and returns how many rows it changed.
#[verifier::external_body]
pub(crate) fn execute(conn: &DbConnection, sql: &str, params: &Vec<SqlParam>) -> Result<
    usize,
    rusqlite::Error,
> {
    conn.execute(sql, rusqlite::params_from_iter(params.iter().map(param_value)))
}

/// Relies on rusqlite's `Connection::prepare`, `Statement::query_map` and
/// `Row::get`: runs one query with its parameters and hands back each row as
/// its first `columns` cells; a row with fewer columns fails the query.
#[verifier::external_body]
pub(crate) fn query_rows(
    conn: &DbConnection,
    sql: &str,
    params: &Vec<SqlParam>,
    columns: usize,
) -> (r: Result<Vec<Vec<SqlValue>>, rusqlite::Error>)
    ensures
        r matches Ok(rows) ==> forall|i: int| 0 <= i < rows.len() ==> #[trigger] rows[i].len() == columns,
{
    let mut stmt = conn.prepare(sql)?;
    let rows = stmt.query_map(rusqlite::params_from_iter(params.iter().map(param_value)), |row| {
        (0..columns).map(|i| row.get(i).map(cell_value)).collect()
    })?;
    rows.collect()
}

/// Relies on rusqlite's `Error::sqlite_error_code`: whether SQLite refused the
/// statement for breaking a constraint.
#[verifier::external_body]
fn is_constraint_violation(e: &rusqlite::Error) -> bool {
    e.sqlite_error_code() == Some(rusqlite::ErrorCode::ConstraintViolation)
}

/// The library's error for a failure of the database.
pub(crate) fn store_error(e: rusqlite::Error) -> StoreError {
    let message = e.to_string();
    if is_constraint_violation(&e) {
        StoreError::Duplicate(message)
    } else {
        StoreError::Failed(message)
    }
}

} // verus!
