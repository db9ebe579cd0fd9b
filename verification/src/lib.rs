//! Import a delimited text file into a full-text-searchable table of an
//! embedded SQLite database. The pipeline sniffs the field delimiter from
//! the first line, derives column names from the header row, creates the
//! full-text table if it is absent, and bulk-loads the remaining records in
//! batched transactions, skipping rows that fail to parse or that the store
//! refuses.

mod db;

pub mod headers;
pub mod loader;
pub mod pipeline;
pub mod reader;
pub mod records;
pub mod sniff;
pub mod sql;
pub mod text;

pub use loader::{ImportError, LoadCounts, load_records};
pub use pipeline::{ImportStats, import_delimited};
pub use records::{RecordEvent, prepare_record};
pub use sniff::detect_delimiter;
