//! The whole pipeline over one in-memory input: sniff the delimiter from
//! the first line, read and normalize the header row, create the full-text
//! table if it is absent, and batch-load the remaining records.

use vstd::prelude::*;
use crate::db::exec_sql;
use crate::headers::{normalize_headers, normalized_headers};
use crate::loader::{ImportError, load_records};
use crate::reader::{csv_header_of, csv_records_of, parse_csv};
use crate::records::{attempted_count, failure_texts};
use crate::sniff::{chosen_delimiter, detect_delimiter, first_line, first_line_of};
use crate::sql::{create_table_sql, insert_sql};
use crate::text::views_of;

verus! {

/// The field separator a run over `data` works with: the one the sniffer
/// chooses for the first line.
pub open spec fn run_delimiter(data: Seq<u8>) -> u8 {
    chosen_delimiter(first_line_of(data))
}

/// What a finished run reports.
#[derive(Debug)]
pub struct ImportStats {
    /// The field separator the sniffer chose.
    pub delimiter: u8,
    /// How many columns the table has.
    pub columns: usize,
    /// How many records an insert was attempted for: every record that
    /// parsed with at least one field, whether or not the store took it.
    pub attempted: usize,
    /// How many of those inserts the store accepted.
    pub confirmed: usize,
    /// The parse failures' descriptions, one per skipped record, in input
    /// order.
    pub skipped: Vec<String>,
}

/// Import the delimited text `data`, whose first record is the header row,
/// into the full-text table `contacts` of the database behind `conn`,
/// committing every `batch_size` attempted rows.
///
/// On success the report is pinned to the input: the delimiter is the one
/// sniffed from the first line, the column count is that of the normalized
/// header row csv parses with that delimiter, the attempted count is
/// exactly the number of parsed, non-empty records of that input, and the
/// skipped diagnostics are exactly the parse failures' descriptions, in
/// order. The run fails with a header error exactly when the header row
/// does not parse; every other abort is a database error, reported when
/// the store refuses a statement other than a row insert.
pub fn import_delimited(conn: &rusqlite::Connection, data: &[u8], batch_size: usize) -> (r: Result<
    ImportStats,
    ImportError,
>)
    ensures
        r matches Ok(stats) ==> stats.delimiter == run_delimiter(data@),
        r matches Ok(stats) ==> csv_header_of(data@, run_delimiter(data@)) matches Some(h)
            && stats.columns == normalized_headers(h).len(),
        r matches Ok(stats) ==> stats.attempted == attempted_count(
            csv_records_of(data@, run_delimiter(data@)),
        ),
        r matches Ok(stats) ==> stats.confirmed <= stats.attempted,
        r matches Ok(stats) ==> views_of(stats.skipped@) == failure_texts(
            csv_records_of(data@, run_delimiter(data@)),
        ),
        csv_header_of(data@, run_delimiter(data@)) is None ==> (r matches Err(e) && e is Header),
        r matches Err(e) ==> (e is Header <==> csv_header_of(data@, run_delimiter(data@)) is None),
{
    let line = first_line(data);
    let delim = detect_delimiter(line);
    let (header, events) = parse_csv(data, delim);
    let headers_raw = match header {
        Ok(h) => h,
        Err(m) => {
            return Err(ImportError::Header(m));
        },
    };
    let columns = normalize_headers(&headers_raw);
    let create = create_table_sql(&columns);
    match exec_sql(conn, create.as_str()) {
        Ok(_) => (),
        Err(m) => {
            return Err(ImportError::Database(m));
        },
    }
    let insert = insert_sql(&columns);
    match load_records(conn, &events, insert.as_str(), columns.len(), batch_size) {
        Ok(counts) => Ok(
            ImportStats {
                delimiter: delim,
                columns: columns.len(),
                attempted: counts.attempted,
                confirmed: counts.confirmed,
                skipped: counts.skipped,
            },
        ),
        Err(e) => Err(e),
    }
}

} // verus!
