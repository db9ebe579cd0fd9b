//! Delimiter sniffing: pick the field separator by counting candidate bytes
//! in the first line of the input.

use vstd::prelude::*;
use vstd::slice::slice_subrange;

verus! {

/// The candidate delimiters, as bytes: comma, semicolon, tab, pipe.
pub const COMMA: u8 = 44;

pub const SEMICOLON: u8 = 59;

pub const TAB: u8 = 9;

pub const PIPE: u8 = 124;

pub const LINE_FEED: u8 = 10;

/// Number of occurrences of the byte `b` in `s`.
pub open spec fn count_byte(s: Seq<u8>, b: u8) -> nat
    decreases s.len(),
{
    if s.len() == 0 {
        0
    } else {
        count_byte(s.drop_last(), b) + if s.last() == b {
            1nat
        } else {
            0nat
        }
    }
}

/// The delimiter chosen for a sample line: the first of `,` `;` tab `|`
/// (in that order) whose occurrence count is strictly higher than every
/// earlier candidate's and at least every later candidate's. All counts
/// zero, or any tie, resolves in favor of the earliest candidate, so a
/// comma comes out unless some other candidate strictly beats it.
pub open spec fn chosen_delimiter(s: Seq<u8>) -> u8 {
    let cc = count_byte(s, COMMA);
    let cs = count_byte(s, SEMICOLON);
    let ct = count_byte(s, TAB);
    let cp = count_byte(s, PIPE);
    if cs > cc && cs >= ct && cs >= cp {
        SEMICOLON
    } else if ct > cc && ct > cs && ct >= cp {
        TAB
    } else if cp > cc && cp > cs && cp > ct {
        PIPE
    } else {
        COMMA
    }
}

proof fn lemma_count_byte_take_step(s: Seq<u8>, b: u8, i: int)
    requires
        0 <= i < s.len(),
    ensures
        count_byte(s.take(i + 1), b) == count_byte(s.take(i), b) + if s[i] == b {
            1nat
        } else {
            0nat
        },
{
    assert(s.take(i + 1).drop_last() =~= s.take(i));
    assert(s.take(i + 1).last() == s[i]);
}

/// Count how many bytes of `line` equal `b`.
pub fn count_occurrences(line: &[u8], b: u8) -> (n: usize)
    ensures
        n == count_byte(line@, b),
{
    let mut n: usize = 0;
    let mut i: usize = 0;
    while i < line.len()
        invariant
            i <= line@.len(),
            n <= i,
            n == count_byte(line@.take(i as int), b),
        decreases line@.len() - i,
    {
        proof {
            lemma_count_byte_take_step(line@, b, i as int);
        }
        if line[i] == b {
            n = n + 1;
        }
        i = i + 1;
    }
    proof {
        assert(line@.take(line@.len() as int) =~= line@);
    }
    n
}

/// Pick the delimiter for a sample line: the candidate among `,` `;` tab `|`
/// with the strictly highest occurrence count, ties and the all-zero case
/// going to the comma.
pub fn detect_delimiter(line: &[u8]) -> (d: u8)
    ensures
        d == chosen_delimiter(line@),
{
    let cc = count_occurrences(line, COMMA);
    let cs = count_occurrences(line, SEMICOLON);
    let ct = count_occurrences(line, TAB);
    let cp = count_occurrences(line, PIPE);
    if cs > cc && cs >= ct && cs >= cp {
        SEMICOLON
    } else if ct > cc && ct > cs && ct >= cp {
        TAB
    } else if cp > cc && cp > cs && cp > ct {
        PIPE
    } else {
        COMMA
    }
}

/// The prefix of `s` before the first line feed: the sample that the
/// sniffer looks at.
pub open spec fn first_line_of(s: Seq<u8>) -> Seq<u8>
    decreases s.len(),
{
    if s.len() == 0 {
        s
    } else if s[0] == LINE_FEED {
        Seq::empty()
    } else {
        seq![s[0]] + first_line_of(s.drop_first())
    }
}

proof fn lemma_first_line_of_prefix(s: Seq<u8>, k: int)
    requires
        0 <= k <= s.len(),
        forall|j: int| 0 <= j < k ==> s[j] != LINE_FEED,
        k < s.len() ==> s[k] == LINE_FEED,
    ensures
        first_line_of(s) =~= s.take(k),
    decreases k,
{
    if k == 0 {
    } else {
        let t = s.drop_first();
        lemma_first_line_of_prefix(t, k - 1);
        assert(seq![s[0]] + t.take(k - 1) =~= s.take(k));
    }
}

/// The prefix of `data` before the first line feed.
pub fn first_line(data: &[u8]) -> (r: &[u8])
    ensures
        r@ == first_line_of(data@),
        r@.len() <= data@.len(),
        r@ == data@.take(r@.len() as int),
        forall|j: int| 0 <= j < r@.len() ==> data@[j] != LINE_FEED,
        r@.len() < data@.len() ==> data@[r@.len() as int] == LINE_FEED,
{
    let mut i: usize = 0;
    while i < data.len()
        invariant
            i <= data@.len(),
            forall|j: int| 0 <= j < i ==> data@[j] != LINE_FEED,
        decreases data@.len() - i,
    {
        if data[i] == LINE_FEED {
            let r = slice_subrange(data, 0, i);
            proof {
                assert(r@ =~= data@.take(i as int));
                lemma_first_line_of_prefix(data@, i as int);
            }
            return r;
        }
        i = i + 1;
    }
    let r = slice_subrange(data, 0, data.len());
    proof {
        assert(r@ =~= data@.take(data@.len() as int));
        lemma_first_line_of_prefix(data@, data@.len() as int);
    }
    r
}

/// The chosen delimiter is always one of the four candidates, no candidate
/// occurs in the line more often than it does, and on a tie for the highest
/// count the earliest candidate in the order comma, semicolon, tab, pipe is
/// the one returned.
pub proof fn lemma_chosen_delimiter_is_best(s: Seq<u8>)
    ensures
        chosen_delimiter(s) == COMMA || chosen_delimiter(s) == SEMICOLON || chosen_delimiter(s) == TAB
            || chosen_delimiter(s) == PIPE,
        count_byte(s, COMMA) <= count_byte(s, chosen_delimiter(s)),
        count_byte(s, SEMICOLON) <= count_byte(s, chosen_delimiter(s)),
        count_byte(s, TAB) <= count_byte(s, chosen_delimiter(s)),
        count_byte(s, PIPE) <= count_byte(s, chosen_delimiter(s)),
        chosen_delimiter(s) == SEMICOLON ==> count_byte(s, SEMICOLON) > count_byte(s, COMMA),
        chosen_delimiter(s) == TAB ==> count_byte(s, TAB) > count_byte(s, COMMA)
            && count_byte(s, TAB) > count_byte(s, SEMICOLON),
        chosen_delimiter(s) == PIPE ==> count_byte(s, PIPE) > count_byte(s, COMMA)
            && count_byte(s, PIPE) > count_byte(s, SEMICOLON) && count_byte(s, PIPE) > count_byte(
            s,
            TAB,
        ),
{
}

} // verus!
