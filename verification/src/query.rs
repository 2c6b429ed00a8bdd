//! The SQL text of every statement the store runs.
//!
//! Statement text is assembled only from fixed fragments and the canonical
//! decimal rendering of numbers that were already validated, so no raw user
//! text can reach the query structure; the task description itself is always
//! bound as a parameter.

use vstd::prelude::*;
use vstd::string::*;
use crate::num::{dec_int, i64_to_string};

verus! {

/// The insert used when no due-time offset was given: `due_on` stays null.
pub open spec fn add_query_no_due() -> Seq<char> {
    "INSERT INTO task(todo, is_completed) VALUES (?1, ?2)"@
}

/// The insert used when a due-time offset was given: `due_on` is the current
/// local time plus the day, hour and minute offsets.
pub open spec fn add_query_with_due(day: int, hour: int, minute: int) -> Seq<char> {
    "INSERT INTO task(todo, is_completed, due_on) VALUES(?1, ?2, datetime('now', 'localtime', '+"@
        + dec_int(day) + " days', '+"@ + dec_int(hour) + " hours', '+"@ + dec_int(minute)
        + " minutes')) "@
}

/// The completion filter. Precedence when several flags are set: `pending`
/// wins over `all`, which wins over `completed`; no flag at all means
/// pending only. `all` keeps a neutral condition so that the `where` clause
/// still composes with the window and ordering that may follow it.
pub open spec fn completion_clause(pending: bool, all: bool, completed: bool) -> Seq<char> {
    if (!pending && !all && !completed) || pending {
        "is_completed = 0 "@
    } else if all {
        "1 = 1 "@
    } else {
        "is_completed = 1 "@
    }
}

/// The completion filter follows one fixed precedence: `pending` wins over
/// `all`, `all` wins over `completed`, and with no flag at all the listing
/// keeps pending tasks only.
pub proof fn lemma_completion_precedence(pending: bool, all: bool, completed: bool)
    ensures
        pending ==> completion_clause(pending, all, completed) == "is_completed = 0 "@,
        !pending && all ==> completion_clause(pending, all, completed) == "1 = 1 "@,
        !pending && !all && completed ==> completion_clause(pending, all, completed)
            == "is_completed = 1 "@,
        !pending && !all && !completed ==> completion_clause(pending, all, completed)
            == "is_completed = 0 "@,
{
}

/// The due-date window: only tasks due between now and now plus the offsets.
pub open spec fn window_clause(day: int, hour: int, minute: int) -> Seq<char> {
    "AND due_on > datetime('now', 'localtime') AND due_on < datetime('now', 'localtime', '+"@
        + dec_int(day) + " days', '+"@ + dec_int(hour) + " hours', '+"@ + dec_int(minute)
        + " minutes') "@
}

/// The ordering: bounded listings also require a due date and come
/// soonest-due-first; otherwise rows come newest-id-first.
pub open spec fn order_clause(bounded: bool) -> Seq<char> {
    if bounded {
        "AND due_on IS NOT NULL order by due_on desc "@
    } else {
        "order by id desc "@
    }
}

/// The full text of the listing query.
pub open spec fn list_query(
    pending: bool,
    all: bool,
    completed: bool,
    window: Option<(int, int, int)>,
    bounded: bool,
    limit: int,
    offset: int,
) -> Seq<char> {
    "SELECT id, todo, strftime('%Y/%m/%d at %H:%M', due_on) from task where "@
        + completion_clause(pending, all, completed) + (match window {
        Some(w) => window_clause(w.0, w.1, w.2),
        None => Seq::empty(),
    }) + order_clause(bounded) + "LIMIT "@ + dec_int(limit) + " OFFSET "@ + dec_int(offset)
}

/// The query counting every row of the table, filtered or not.
pub open spec fn count_query() -> Seq<char> {
    "SELECT count(*) from task"@
}

/// The single-task lookup.
pub open spec fn info_query(id: int) -> Seq<char> {
    "SELECT id, todo, strftime('%Y/%m/%d at %H:%M', due_on) from task where id = "@ + dec_int(id)
}

/// Builds the insert statement for a task with a due-time offset.
pub fn build_add_query(day: i64, hour: i64, minute: i64) -> (s: String)
    ensures
        s@ == add_query_with_due(day as int, hour as int, minute as int),
{
    let mut s = String::from_str(
        "INSERT INTO task(todo, is_completed, due_on) VALUES(?1, ?2, datetime('now', 'localtime', '+",
    );
    s.append(i64_to_string(day).as_str());
    s.append(" days', '+");
    s.append(i64_to_string(hour).as_str());
    s.append(" hours', '+");
    s.append(i64_to_string(minute).as_str());
    s.append(" minutes')) ");
    proof {
        assert(s@ =~= add_query_with_due(day as int, hour as int, minute as int));
    }
    s
}

/// Builds the listing query from the already validated options.
pub fn build_list_query(
    pending: bool,
    all: bool,
    completed: bool,
    window: Option<(i64, i64, i64)>,
    bounded: bool,
    limit: i64,
    offset: i64,
) -> (s: String)
    ensures
        s@ == list_query(
            pending,
            all,
            completed,
            match window {
                Some(w) => Some((w.0 as int, w.1 as int, w.2 as int)),
                None => None,
            },
            bounded,
            limit as int,
            offset as int,
        ),
{
    let mut s = String::from_str(
        "SELECT id, todo, strftime('%Y/%m/%d at %H:%M', due_on) from task where ",
    );
    if (!pending && !all && !completed) || pending {
        s.append("is_completed = 0 ");
    } else if all {
        s.append("1 = 1 ");
    } else {
        s.append("is_completed = 1 ");
    }
    match window {
        Some(w) => {
            s.append("AND due_on > datetime('now', 'localtime') AND due_on < datetime('now', 'localtime', '+");
            s.append(i64_to_string(w.0).as_str());
            s.append(" days', '+");
            s.append(i64_to_string(w.1).as_str());
            s.append(" hours', '+");
            s.append(i64_to_string(w.2).as_str());
            s.append(" minutes') ");
        },
        None => {},
    }
    if bounded {
        s.append("AND due_on IS NOT NULL order by due_on desc ");
    } else {
        s.append("order by id desc ");
    }
    s.append("LIMIT ");
    s.append(i64_to_string(limit).as_str());
    s.append(" OFFSET ");
    s.append(i64_to_string(offset).as_str());
    proof {
        assert(s@ =~= list_query(
            pending,
            all,
            completed,
            match window {
                Some(w) => Some((w.0 as int, w.1 as int, w.2 as int)),
                None => None,
            },
            bounded,
            limit as int,
            offset as int,
        ));
    }
    s
}

/// Builds the single-task lookup for a validated id.
pub fn build_info_query(id: i64) -> (s: String)
    ensures
        s@ == info_query(id as int),
{
    let mut s = String::from_str(
        "SELECT id, todo, strftime('%Y/%m/%d at %H:%M', due_on) from task where id = ",
    );
    s.append(i64_to_string(id).as_str());
    proof {
        assert(s@ =~= info_query(id as int));
    }
    s
}

} // verus!
