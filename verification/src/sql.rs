//! Building the two SQL statements the pipeline issues: the idempotent
//! creation of the full-text table and the parameterized insert.

use vstd::prelude::*;
use crate::text::{join_strings, joined, views_of};

verus! {

/// The statement that creates the full-text table `contacts` over the given
/// columns. `IF NOT EXISTS` makes issuing it against an existing table of
/// that name a no-op rather than an error, so creation is idempotent.
pub open spec fn create_table_sql_spec(cols: Seq<Seq<char>>) -> Seq<char> {
    "CREATE VIRTUAL TABLE IF NOT EXISTS contacts USING fts5("@ + joined(cols, ", "@) + ");"@
}

/// The parameterized statement that inserts one row, with one `?`
/// placeholder per column.
pub open spec fn insert_sql_spec(cols: Seq<Seq<char>>) -> Seq<char> {
    "INSERT INTO contacts ("@ + joined(cols, ", "@) + ") VALUES ("@ + joined(
        Seq::new(cols.len(), |i: int| "?"@),
        ", "@,
    ) + ");"@
}

/// Build the create-table statement for the given column names.
pub fn create_table_sql(cols: &Vec<String>) -> (r: String)
    ensures
        r@ == create_table_sql_spec(views_of(cols@)),
{
    let mut r = String::from_str("CREATE VIRTUAL TABLE IF NOT EXISTS contacts USING fts5(");
    r.append(join_strings(cols, ", ").as_str());
    r.append(");");
    r
}

/// Build the insert statement for the given column names.
pub fn insert_sql(cols: &Vec<String>) -> (r: String)
    ensures
        r@ == insert_sql_spec(views_of(cols@)),
{
    let mut marks: Vec<String> = Vec::new();
    let mut i: usize = 0;
    while i < cols.len()
        invariant
            i <= cols@.len(),
            marks@.len() == i,
            forall|j: int| 0 <= j < i ==> marks@[j]@ == "?"@,
        decreases cols@.len() - i,
    {
        marks.push(String::from_str("?"));
        i = i + 1;
    }
    proof {
        assert(views_of(marks@) =~= Seq::new(cols@.len() as nat, |j: int| "?"@));
    }
    let mut r = String::from_str("INSERT INTO contacts (");
    r.append(join_strings(cols, ", ").as_str());
    r.append(") VALUES (");
    r.append(join_strings(&marks, ", ").as_str());
    r.append(");");
    r
}

} // verus!
