//! The batch loader: walk the parsed records, attempt one parameterized
//! insert per usable record, and commit the open transaction every
//! `batch_size` attempted rows and once more at the end. A record that
//! failed to parse, or parsed with no fields, is skipped; a record whose
//! insert the store refuses is dropped without stopping the run. Only a
//! failed commit (or failed transaction start) aborts the load.

use vstd::prelude::*;
use crate::db::{exec_sql, exec_sql_with_params};
use crate::records::{
    RecordEvent,
    attempted_count,
    failure_texts,
    lemma_attempted_count_take_step,
    lemma_failure_texts_take_step,
    prepare_record,
};
use crate::text::views_of;

verus! {

/// What the loader reports when every transaction went through.
#[derive(Debug)]
pub struct LoadCounts {
    /// How many records an insert was attempted for: every record that
    /// parsed with at least one field, whether or not the store took it.
    pub attempted: usize,
    /// How many of those inserts the store accepted.
    pub confirmed: usize,
    /// The parse failures' descriptions, one per skipped record, in input
    /// order: the diagnostics of the rows the run never attempted.
    pub skipped: Vec<String>,
}

/// Why a run aborted.
#[derive(Debug)]
pub enum ImportError {
    /// The header row could not be read.
    Header(String),
    /// The store refused to create the table, open a transaction or commit.
    Database(String),
}

impl ImportError {
    /// The error's description, for reporting.
    pub fn describe(&self) -> (r: String)
        ensures
            r@ == match self {
                ImportError::Header(m) => "header row: "@ + m@,
                ImportError::Database(m) => "database: "@ + m@,
            },
    {
        match self {
            ImportError::Header(m) => {
                let mut r = String::from_str("header row: ");
                r.append(m.as_str());
                r
            },
            ImportError::Database(m) => {
                let mut r = String::from_str("database: ");
                r.append(m.as_str());
                r
            },
        }
    }
}

/// Insert the usable records of `events` into the store through `insert`,
/// in order, inside transactions of at most `batch_size` attempted rows.
///
/// On success the attempted count is exactly the number of events that
/// parsed with at least one field: parse failures and empty records are
/// never counted, and a record whose insert the store refused still is —
/// the count reports attempted, not confirmed, insertions. The load fails
/// only when the store refuses a transaction statement itself.
pub fn load_records(
    conn: &rusqlite::Connection,
    events: &Vec<RecordEvent>,
    insert: &str,
    header_count: usize,
    batch_size: usize,
) -> (r: Result<LoadCounts, ImportError>)
    ensures
        r matches Ok(counts) ==> counts.attempted == attempted_count(events@),
        r matches Ok(counts) ==> counts.confirmed <= counts.attempted,
        r matches Ok(counts) ==> views_of(counts.skipped@) == failure_texts(events@),
        r matches Err(e) ==> e is Database,
{
    match exec_sql(conn, "BEGIN DEFERRED") {
        Ok(_) => (),
        Err(m) => {
            return Err(ImportError::Database(m));
        },
    }
    let mut attempted: usize = 0;
    let mut confirmed: usize = 0;
    let mut batch_count: usize = 0;
    let mut skipped: Vec<String> = Vec::new();
    let mut i: usize = 0;
    while i < events.len()
        invariant
            i <= events@.len(),
            attempted == attempted_count(events@.take(i as int)),
            confirmed <= attempted,
            attempted <= i,
            batch_count <= attempted,
            views_of(skipped@) == failure_texts(events@.take(i as int)),
        decreases events@.len() - i,
    {
        proof {
            lemma_attempted_count_take_step(events@, i as int);
            lemma_failure_texts_take_step(events@, i as int);
        }
        match &events[i] {
            RecordEvent::Failed(m) => {
                skipped.push(m.clone());
                proof {
                    assert(views_of(skipped@) =~= failure_texts(events@.take(i + 1)));
                }
            },
            RecordEvent::Parsed(fields) => {
                match prepare_record(fields, header_count) {
                    None => (),
                    Some(values) => {
                        let res = exec_sql_with_params(conn, insert, values.as_slice());
                        if res.is_ok() {
                            confirmed = confirmed + 1;
                        }
                        attempted = attempted + 1;
                        batch_count = batch_count + 1;
                        if batch_count >= batch_size {
                            match exec_sql(conn, "COMMIT") {
                                Ok(_) => (),
                                Err(m) => {
                                    return Err(ImportError::Database(m));
                                },
                            }
                            match exec_sql(conn, "BEGIN DEFERRED") {
                                Ok(_) => (),
                                Err(m) => {
                                    return Err(ImportError::Database(m));
                                },
                            }
                            batch_count = 0;
                        }
                    },
                }
            },
        }
        i = i + 1;
    }
    proof {
        assert(events@.take(events@.len() as int) =~= events@);
    }
    match exec_sql(conn, "COMMIT") {
        Ok(_) => (),
        Err(m) => {
            return Err(ImportError::Database(m));
        },
    }
    Ok(LoadCounts { attempted: attempted, confirmed: confirmed, skipped: skipped })
}

} // verus!
