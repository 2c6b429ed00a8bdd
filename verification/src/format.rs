//! Formatting of task rows into the lines the program prints.

use vstd::prelude::*;
use vstd::string::*;
use crate::num::{dec_int, i64_to_string, i128_to_string};

verus! {

/// One fetched task row: its id, its description, and its due date already
/// rendered by the store (absent when the task has no deadline).
pub struct IdNameDate {
    pub x1: i64,
    pub x2: String,
    pub x3: Option<String>,
}

/// The text of one task line, with its trailing newline: the id, a tab, the
/// description, and a `Due on` note when a due date exists.
pub open spec fn task_line(id: int, todo: Seq<char>, due: Option<Seq<char>>) -> Seq<char> {
    match due {
        Some(d) => dec_int(id) + "\t"@ + todo + "\t Due on "@ + d + "\n"@,
        None => dec_int(id) + "\t"@ + todo + "\n"@,
    }
}

/// The line for a fetched row.
pub open spec fn row_line(r: IdNameDate) -> Seq<char> {
    task_line(
        r.x1 as int,
        r.x2@,
        match r.x3 {
            Some(d) => Some(d@),
            None => None,
        },
    )
}

/// The lines of a sequence of rows, in order.
pub open spec fn lines_text(rows: Seq<IdNameDate>) -> Seq<char>
    decreases rows.len(),
{
    if rows.len() == 0 {
        Seq::empty()
    } else {
        lines_text(rows.drop_last()) + row_line(rows.last())
    }
}

/// `s` without its final character; the empty text stays empty.
pub open spec fn strip_last(s: Seq<char>) -> Seq<char> {
    if s.len() == 0 {
        s
    } else {
        s.drop_last()
    }
}

/// How many matching rows lie beyond the current page. By a deliberate
/// choice, `total` is the unfiltered row count of the whole table, not the
/// count under the active filters.
pub open spec fn remaining_count(total: int, limit: int, offset: int) -> int {
    total - offset - limit
}

/// The full listing: one line per row, then either a note about how many
/// further tasks exist (when the remainder is positive) or, otherwise, the
/// listing with its final newline stripped.
pub open spec fn listing_text(rows: Seq<IdNameDate>, total: int, limit: int, offset: int) -> Seq<
    char,
> {
    let body = lines_text(rows);
    if remaining_count(total, limit, offset) > 0 {
        body + "and "@ + dec_int(remaining_count(total, limit, offset)) + " tasks more"@
    } else {
        strip_last(body)
    }
}

/// The single-task info text: the row's line without its trailing newline,
/// or the empty string when no row matched.
pub open spec fn info_text(rows: Seq<IdNameDate>) -> Seq<char> {
    strip_last(lines_text(rows))
}

/// Renders one task row as its listing line.
pub fn format_task_line(r: &IdNameDate) -> (s: String)
    ensures
        s@ == row_line(*r),
{
    let mut s = i64_to_string(r.x1);
    s.append("\t");
    s.append(r.x2.as_str());
    match &r.x3 {
        Some(d) => {
            s.append("\t Due on ");
            s.append(d.as_str());
        },
        None => {},
    }
    s.append("\n");
    proof {
        assert(s@ =~= row_line(*r));
    }
    s
}

/// Removes the final character of `s`; the empty string stays empty.
pub fn drop_last_char(s: String) -> (r: String)
    ensures
        r@ == strip_last(s@),
{
    let n = s.as_str().unicode_len();
    if n == 0 {
        s
    } else {
        let r = s.as_str().substring_char(0, n - 1).to_owned();
        proof {
            assert(r@ =~= strip_last(s@));
        }
        r
    }
}

/// Renders the lines of all rows, in order.
pub fn format_lines(rows: &Vec<IdNameDate>) -> (s: String)
    ensures
        s@ == lines_text(rows@),
{
    let mut s = String::new();
    let mut i: usize = 0;
    while i < rows.len()
        invariant
            i <= rows.len(),
            s@ == lines_text(rows@.take(i as int)),
        decreases rows.len() - i,
    {
        let line = format_task_line(&rows[i]);
        s.append(line.as_str());
        proof {
            assert(rows@.take(i + 1).drop_last() =~= rows@.take(i as int));
            assert(rows@.take(i + 1).last() == rows@[i as int]);
        }
        i += 1;
    }
    proof {
        assert(rows@.take(rows@.len() as int) =~= rows@);
    }
    s
}

/// Renders the full listing for one page: every fetched row's line, then the
/// count of tasks beyond this page when it is positive, else the listing with
/// its final newline stripped.
pub fn format_listing(rows: &Vec<IdNameDate>, total: i64, limit: i64, offset: i64) -> (s: String)
    ensures
        s@ == listing_text(rows@, total as int, limit as int, offset as int),
{
    let body = format_lines(rows);
    let diff: i128 = total as i128 - offset as i128 - limit as i128;
    if diff > 0 {
        let mut s = body;
        s.append("and ");
        let d = i128_to_string(diff);
        s.append(d.as_str());
        s.append(" tasks more");
        proof {
            assert(s@ =~= listing_text(rows@, total as int, limit as int, offset as int));
        }
        s
    } else {
        drop_last_char(body)
    }
}

} // verus!
