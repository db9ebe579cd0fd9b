//! Header normalization: turn the raw header record into the list of column
//! names. A field is trimmed; an empty result is dropped; a trimmed field
//! made only of letters, digits and underscores is kept as written; any
//! other field becomes a synthetic `col<N>` name, where `N` is the field's
//! 1-based position in the raw header row, counted before any field is
//! dropped.

use vstd::prelude::*;
use crate::text::{
    all_ident_chars,
    decimal_digits,
    decimal_string,
    is_ident_char_exec,
    trim_string,
    trimmed,
    views_of,
};

verus! {

/// The column name for the raw header field `field` standing at 1-based
/// position `pos` in the header row, assuming its trimmed text is not empty.
pub open spec fn column_name(field: Seq<char>, pos: nat) -> Seq<char> {
    if all_ident_chars(trimmed(field)) {
        trimmed(field)
    } else {
        "col"@ + decimal_digits(pos)
    }
}

/// The column names derived from the raw header fields: one per field whose
/// trimmed text is not empty, in order, each named by `column_name` at its
/// original 1-based position.
pub open spec fn normalized_headers(raw: Seq<Seq<char>>) -> Seq<Seq<char>>
    decreases raw.len(),
{
    if raw.len() == 0 {
        Seq::empty()
    } else {
        let rest = normalized_headers(raw.drop_last());
        if trimmed(raw.last()).len() == 0 {
            rest
        } else {
            rest.push(column_name(raw.last(), raw.len() as nat))
        }
    }
}

/// Whether every character of `s` is a letter, a digit or an underscore.
pub fn all_ident_chars_exec(s: &str) -> (r: bool)
    ensures
        r == all_ident_chars(s@),
{
    let n = s.unicode_len();
    let mut i: usize = 0;
    while i < n
        invariant
            n == s@.len(),
            i <= n,
            forall|j: int| 0 <= j < i ==> crate::text::is_ident_char(s@[j]),
        decreases n - i,
    {
        if !is_ident_char_exec(s.get_char(i)) {
            return false;
        }
        i = i + 1;
    }
    true
}

/// Derive the column names from the raw header fields.
pub fn normalize_headers(raw: &Vec<String>) -> (cols: Vec<String>)
    ensures
        views_of(cols@) == normalized_headers(views_of(raw@)),
{
    let ghost m = views_of(raw@);
    let mut cols: Vec<String> = Vec::new();
    let mut i: usize = 0;
    while i < raw.len()
        invariant
            m == views_of(raw@),
            i <= raw@.len(),
            m.len() == raw@.len(),
            views_of(cols@) == normalized_headers(m.take(i as int)),
        decreases raw@.len() - i,
    {
        let ghost cols_before = views_of(cols@);
        let t = trim_string(raw[i].as_str());
        if t.as_str().unicode_len() > 0 {
            if all_ident_chars_exec(t.as_str()) {
                cols.push(t);
            } else {
                let mut name = String::from_str("col");
                name.append(decimal_string(i + 1).as_str());
                cols.push(name);
            }
        }
        proof {
            assert(m.take(i + 1).drop_last() =~= m.take(i as int));
            assert(m.take(i + 1).last() == m[i as int]);
            assert(m[i as int] == raw@[i as int]@);
            assert(views_of(cols@) =~= normalized_headers(m.take(i + 1)));
        }
        i = i + 1;
    }
    proof {
        assert(m.take(m.len() as int) =~= m);
    }
    cols
}

} // verus!
