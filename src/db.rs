//! The SQLite boundary: the outside types and the few calls into rusqlite
//! and rusqlite_migration that the repositories make. Values cross it as
//! [`SqlValue`]s and rows as vectors of them.
use rusqlite::Connection;
use vstd::prelude::*;

verus! {

#[verifier::external_type_specification]
#[verifier::external_body]
pub struct ExConnection(rusqlite::Connection);

#[verifier::external_type_specification]
#[verifier::external_body]
pub struct ExSqliteError(rusqlite::Error);

#[verifier::external_type_specification]
#[verifier::external_body]
pub struct ExMigrationError(rusqlite_migration::Error);

#[verifier::external_type_specification]
#[verifier::external_body]
pub struct ExValue(rusqlite::types::Value);

#[verifier::external_type_specification]
#[verifier::external_body]
pub struct ExValueRef<'a>(rusqlite::types::ValueRef<'a>);

/// A value bound to a placeholder or read from a column.
#[derive(Debug, Clone, PartialEq)]
pub enum SqlValue {
    Null,
    Integer(i64),
    Text(String),
    Blob(Vec<u8>),
    /// A floating-point column value; the catalog stores none.
    Real,
}

/// Builds rusqlite's `types::Value` for each parameter, variant for
/// variant; `Real`, which carries no number, binds as NULL.
#[verifier::external_body]
fn bind(params: &Vec<SqlValue>) -> (r: Vec<rusqlite::types::Value>)
    ensures
        r.len() == params.len(),
{
    params.iter().map(|p| match p {
        SqlValue::Null => rusqlite::types::Value::Null,
        SqlValue::Real => rusqlite::types::Value::Null,
        SqlValue::Integer(i) => rusqlite::types::Value::Integer(*i),
        SqlValue::Text(s) => rusqlite::types::Value::Text(s.clone()),
        SqlValue::Blob(b) => rusqlite::types::Value::Blob(b.clone()),
    }).collect()
}

/// Reads rusqlite's `types::ValueRef` of a column, variant for variant; text
/// that is not UTF-8 is read as a blob of its bytes.
#[verifier::external_body]
fn read_value(v: rusqlite::types::ValueRef<'_>) -> (r: SqlValue) {
    match v {
        rusqlite::types::ValueRef::Null => SqlValue::Null,
        rusqlite::types::ValueRef::Integer(i) => SqlValue::Integer(i),
        rusqlite::types::ValueRef::Real(_) => SqlValue::Real,
        rusqlite::types::ValueRef::Text(t) => match std::str::from_utf8(t) {
            Ok(s) => SqlValue::Text(s.to_string()),
            Err(_) => SqlValue::Blob(t.to_vec()),
        },
        rusqlite::types::ValueRef::Blob(b) => SqlValue::Blob(b.to_vec()),
    }
}

/// Relies on rusqlite's `Connection::execute`: runs one statement with the
/// given parameters bound in order, and reports the number of changed rows.
#[verifier::external_body]
pub(crate) fn execute(conn: &Connection, sql: &str, params: &Vec<SqlValue>) -> (r: Result<usize, rusqlite::Error>) {
    conn.execute(sql, rusqlite::params_from_iter(bind(params)))
}

/// Relies on rusqlite's `Connection::execute_batch`: runs a batch of
/// statements without parameters.
#[verifier::external_body]
pub(crate) fn execute_batch(conn: &Connection, sql: &str) -> (r: Result<(), rusqlite::Error>) {
    conn.execute_batch(sql)
}

/// Relies on rusqlite's `Connection::last_insert_rowid`: the rowid of the
/// most recent successful insert on this connection.
#[verifier::external_body]
pub(crate) fn last_insert_rowid(conn: &Connection) -> (r: i64) {
    conn.last_insert_rowid()
}

/// Relies on rusqlite's `Connection::prepare`, `Statement::query`,
/// `Rows::next` and `Row::get_ref`: runs a query with the given parameters and reads the first
/// `ncols` columns of each row. Every row handed back holds exactly `ncols`
/// values.
#[verifier::external_body]
pub(crate) fn query_rows(conn: &Connection, sql: &str, params: &Vec<SqlValue>, ncols: usize) -> (r: Result<Vec<Vec<SqlValue>>, rusqlite::Error>)
    ensures
        r matches Ok(rows) ==> forall|i: int| 0 <= i < rows.len() ==> #[trigger] rows[i].len() == ncols,
{
    let mut stmt = conn.prepare(sql)?;
    let mut rows = stmt.query(rusqlite::params_from_iter(bind(params)))?;
    let mut out = Vec::new();
    while let Some(row) = rows.next()? {
        let mut values = Vec::with_capacity(ncols);
        for i in 0..ncols {
            values.push(read_value(row.get_ref(i)?));
        }
        out.push(values);
    }
    Ok(out)
}

/// Relies on rusqlite_migration's `M::up`, `Migrations::new` and
/// `Migrations::to_latest`: applies, in order, each of the given migrations
/// that the database's ledger (its `user_version`) does not yet record, and
/// records it.
#[verifier::external_body]
pub(crate) fn migrate_to_latest(conn: &mut Connection, ups: &Vec<&'static str>) -> (r: Result<(), rusqlite_migration::Error>) {
    let mut ms: Vec<rusqlite_migration::M<'static>> = Vec::new();
    for up in ups.iter() {
        ms.push(rusqlite_migration::M::up(up));
    }
    rusqlite_migration::Migrations::new(ms).to_latest(conn)
}

} // verus!
