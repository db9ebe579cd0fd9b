//! Access to the delimited-text parser, through csv. The one function here
//! is a trusted wrapper around the whole parse of an input. What the parse
//! returns depends on nothing but the input bytes and the delimiter, so the
//! two uninterpreted functions give its results names that the rest of the
//! library's contracts can speak of; nothing is assumed about the results
//! themselves.

use vstd::prelude::*;
use crate::records::RecordEvent;
use crate::text::views_of;

verus! {

/// The fields of the header row that csv parses out of `data` with the
/// field separator `delim`, or `None` when the header row does not parse
/// (for instance, because it is not valid UTF-8).
pub uninterp spec fn csv_header_of(data: Seq<u8>, delim: u8) -> Option<Seq<Seq<char>>>;

/// The records that csv parses out of `data` after the header row, with the
/// field separator `delim`: for each row in input order, its fields or a
/// parse failure with its description.
pub uninterp spec fn csv_records_of(data: Seq<u8>, delim: u8) -> Seq<RecordEvent>;

/// Relies on csv::ReaderBuilder, csv::Reader::headers and
/// csv::Reader::read_record: parse the whole of `data` with the field
/// separator `delim`, taking the first record as the header row and
/// accepting records of any field count. Returns the header fields (or the
/// header parse error's display text) and every following record, in input
/// order. Both results are functions of `data` and `delim` alone, which is
/// all this contract states of them.
#[verifier::external_body]
pub(crate) fn parse_csv(data: &[u8], delim: u8) -> (r: (
    Result<Vec<String>, String>,
    Vec<RecordEvent>,
))
    ensures
        r.0 matches Ok(h) ==> csv_header_of(data@, delim) == Some(views_of(h@)),
        r.0 is Err <==> csv_header_of(data@, delim) is None,
        r.1@ == csv_records_of(data@, delim),
{
    let mut rdr = csv::ReaderBuilder::new().delimiter(delim).flexible(true).from_reader(data);
    let header = rdr
        .headers()
        .map(|h| h.iter().map(|f| f.to_string()).collect())
        .map_err(|e| format!("{}", e));
    let mut events = Vec::new();
    let mut rec = csv::StringRecord::new();
    loop {
        match rdr.read_record(&mut rec) {
            Ok(true) => events.push(RecordEvent::Parsed(rec.iter().map(|f| f.to_string()).collect())),
            Ok(false) => return (header, events),
            Err(e) => events.push(RecordEvent::Failed(format!("{}", e))),
        }
    }
}

} // verus!
