//! Access to the embedded relational store, through rusqlite. Each function
//! here is a trusted wrapper: its body makes one call into the store, and
//! nothing is assumed about how the store reacts, so every caller must say
//! what holds whichever of `Ok` and `Err` comes back.

use vstd::prelude::*;

verus! {

#[verifier::external_type_specification]
#[verifier::external_body]
pub struct ExConnection(rusqlite::Connection);

/// Relies on rusqlite::Connection::execute, called with no parameters: runs
/// one SQL statement; `Ok` carries the number of rows the statement changed,
/// `Err` the error's display text.
#[verifier::external_body]
pub(crate) fn exec_sql(conn: &rusqlite::Connection, sql: &str) -> (r: Result<usize, String>) {
    match conn.execute(sql, []) {
        Ok(n) => Ok(n),
        Err(e) => Err(format!("{}", e)),
    }
}

/// Relies on rusqlite::Connection::execute, called with
/// rusqlite::params_from_iter: runs one parameterized SQL statement binding
/// the strings of `values` positionally to its placeholders; `Ok` carries
/// the number of rows changed, `Err` the error's display text.
#[verifier::external_body]
pub(crate) fn exec_sql_with_params(
    conn: &rusqlite::Connection,
    sql: &str,
    values: &[String],
) -> (r: Result<usize, String>) {
    match conn.execute(sql, rusqlite::params_from_iter(values.iter())) {
        Ok(n) => Ok(n),
        Err(e) => Err(format!("{}", e)),
    }
}

} // verus!
