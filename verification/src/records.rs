//! Records of the input stream, after the text-parsing layer: either the
//! fields of one parsed row, or a parse failure carrying its description.
//! `prepare_record` applies the per-row policy: trim every field, skip a
//! record with no fields, and truncate to the column count.

use vstd::prelude::*;
use crate::text::{trim_string, trimmed};

verus! {

/// One outcome of reading a record from the input: the fields of a parsed
/// row, or a parse failure with its description.
#[derive(Debug)]
pub enum RecordEvent {
    Parsed(Vec<String>),
    Failed(String),
}

/// Whether an insertion is attempted for this event: it parsed and has at
/// least one field. Parse failures and empty records are skipped.
pub open spec fn is_attempted(e: RecordEvent) -> bool {
    match e {
        RecordEvent::Parsed(fields) => fields@.len() > 0,
        RecordEvent::Failed(_) => false,
    }
}

/// How many of the events an insertion is attempted for.
pub open spec fn attempted_count(events: Seq<RecordEvent>) -> nat
    decreases events.len(),
{
    if events.len() == 0 {
        0
    } else {
        attempted_count(events.drop_last()) + if is_attempted(events.last()) {
            1nat
        } else {
            0nat
        }
    }
}

pub proof fn lemma_attempted_count_take_step(events: Seq<RecordEvent>, i: int)
    requires
        0 <= i < events.len(),
    ensures
        attempted_count(events.take(i + 1)) == attempted_count(events.take(i)) + if is_attempted(
            events[i],
        ) {
            1nat
        } else {
            0nat
        },
{
    assert(events.take(i + 1).drop_last() =~= events.take(i));
    assert(events.take(i + 1).last() == events[i]);
}

/// The descriptions of the parse failures among the events, in order.
pub open spec fn failure_texts(events: Seq<RecordEvent>) -> Seq<Seq<char>>
    decreases events.len(),
{
    if events.len() == 0 {
        Seq::empty()
    } else {
        let rest = failure_texts(events.drop_last());
        match events.last() {
            RecordEvent::Parsed(_) => rest,
            RecordEvent::Failed(m) => rest.push(m@),
        }
    }
}

pub proof fn lemma_failure_texts_take_step(events: Seq<RecordEvent>, i: int)
    requires
        0 <= i < events.len(),
    ensures
        failure_texts(events.take(i + 1)) == match events[i] {
            RecordEvent::Parsed(_) => failure_texts(events.take(i)),
            RecordEvent::Failed(m) => failure_texts(events.take(i)).push(m@),
        },
{
    assert(events.take(i + 1).drop_last() =~= events.take(i));
    assert(events.take(i + 1).last() == events[i]);
}

/// The values bound for one parsed record: every field trimmed, and the
/// sequence cut off at the column count. `None` when the record has no
/// fields at all and is skipped.
pub fn prepare_record(fields: &Vec<String>, header_count: usize) -> (r: Option<Vec<String>>)
    ensures
        r is Some <==> fields@.len() > 0,
        r is Some ==> r.unwrap()@.len() == if fields@.len() < header_count {
            fields@.len() as int
        } else {
            header_count as int
        },
        r is Some ==> forall|j: int|
            0 <= j < r.unwrap()@.len() ==> r.unwrap()@[j]@ == trimmed(fields@[j]@),
{
    if fields.len() == 0 {
        return None;
    }
    let n = if fields.len() < header_count {
        fields.len()
    } else {
        header_count
    };
    let mut values: Vec<String> = Vec::new();
    let mut i: usize = 0;
    while i < n
        invariant
            n <= fields@.len(),
            i <= n,
            values@.len() == i,
            forall|j: int| 0 <= j < i ==> values@[j]@ == trimmed(fields@[j]@),
        decreases n - i,
    {
        values.push(trim_string(fields[i].as_str()));
        i = i + 1;
    }
    Some(values)
}

} // verus!
