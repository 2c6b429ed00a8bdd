//! The task store's operations: create, list, single-task info, status
//! update, delete, and schema reset.
//!
//! Every handler validates its numeric arguments before any SQL text is
//! assembled and reports a distinct message when validation fails; what the
//! database itself returns is outside the library's control, so for the
//! statement outcome each contract states the exact text produced for every
//! possible result.

use vstd::prelude::*;
use vstd::string::*;
use crate::db;
use crate::format::{IdNameDate, format_listing, info_text, listing_text};
use crate::num::{dec_int, int_str_val, parse_i64, valid_i64_string};
use crate::query::{build_add_query, build_info_query, build_list_query};

verus! {

/// The options of the `list` command, as they arrive from the command line;
/// numeric options are still raw text here and are validated by
/// [`handle_list`].
pub struct ListOptions {
    pub pending: bool,
    pub completed: bool,
    pub all: bool,
    pub bounded: bool,
    pub day: Option<String>,
    pub hour: Option<String>,
    pub minute: Option<String>,
    pub limit: Option<String>,
    pub offset: Option<String>,
}

/// Whether an optional argument is either absent or a valid `i64` string.
pub open spec fn opt_arg_valid(o: Option<&str>) -> bool {
    match o {
        Some(s) => valid_i64_string(s@),
        None => true,
    }
}

/// Whether an optional owned argument is either absent or a valid `i64`
/// string.
pub open spec fn opt_field_valid(o: Option<String>) -> bool {
    match o {
        Some(s) => valid_i64_string(s@),
        None => true,
    }
}

/// The value of an optional owned argument, with a default when absent.
pub open spec fn opt_field_val(o: Option<String>, default: int) -> int {
    match o {
        Some(s) => int_str_val(s@),
        None => default,
    }
}

/// Whether every numeric option of a listing is absent or a valid integer.
pub open spec fn list_opts_valid(o: ListOptions) -> bool {
    opt_field_valid(o.day) && opt_field_valid(o.hour) && opt_field_valid(o.minute)
        && opt_field_valid(o.limit) && opt_field_valid(o.offset)
}

/// The confirmation printed by a status update.
pub open spec fn convert_message(pending: bool) -> Seq<char> {
    if pending {
        "The task has been marked pending successfully"@
    } else {
        "The task has been marked completed successfully"@
    }
}

/// Adds a task. With no offset at all the row keeps a null due date;
/// otherwise the due date is now plus the given offsets, absent components
/// counting as zero. Success echoes the assigned id and the task text,
/// separated by a tab.
pub fn handle_add(
    conn: &rusqlite::Connection,
    task: Option<&str>,
    day: Option<&str>,
    hour: Option<&str>,
    minute: Option<&str>,
) -> (r: Result<String, String>)
    ensures
        task is None ==> r is Err && r->Err_0@ == "No Task found"@,
        task is Some && !(opt_arg_valid(day) && opt_arg_valid(hour) && opt_arg_valid(minute))
            ==> r is Err && r->Err_0@ == "Invalid offset value"@,
        task is Some && opt_arg_valid(day) && opt_arg_valid(hour) && opt_arg_valid(minute) && r
            is Err ==> r->Err_0@ == "Error inserting into db"@,
        r is Ok ==> task is Some && opt_arg_valid(day) && opt_arg_valid(hour) && opt_arg_valid(
            minute,
        ),
        r is Ok ==> exists|rid: int| r->Ok_0@ == dec_int(rid) + "\t"@ + task->0@,
{
    let text = match task {
        Some(t) => t,
        None => {
            return Err("No Task found".to_owned());
        },
    };
    let outcome = if day.is_none() && hour.is_none() && minute.is_none() {
        db::exec_sql_two_params(
            conn,
            "INSERT INTO task(todo, is_completed) VALUES (?1, ?2)",
            text,
            "0",
        )
    } else {
        let d = match day {
            Some(s) => match parse_i64(s) {
                Some(v) => v,
                None => {
                    return Err("Invalid offset value".to_owned());
                },
            },
            None => 0,
        };
        let h = match hour {
            Some(s) => match parse_i64(s) {
                Some(v) => v,
                None => {
                    return Err("Invalid offset value".to_owned());
                },
            },
            None => 0,
        };
        let m = match minute {
            Some(s) => match parse_i64(s) {
                Some(v) => v,
                None => {
                    return Err("Invalid offset value".to_owned());
                },
            },
            None => 0,
        };
        let q = build_add_query(d, h, m);
        db::exec_sql_two_params(conn, q.as_str(), text, "0")
    };
    match outcome {
        Ok(_) => {
            let rid = db::last_insert_rowid(conn);
            let mut s = crate::num::i64_to_string(rid);
            s.append("\t");
            s.append(text);
            proof {
                assert(s@ == dec_int(rid as int) + "\t"@ + text@);
            }
            Ok(s)
        },
        Err(_) => Err("Error inserting into db".to_owned()),
    }
}

/// Lists one page of tasks. The completion filter defaults to pending-only;
/// `pending` wins over `all`, which wins over `completed`. A day, hour or
/// minute option restricts to tasks due between now and now plus the
/// offsets; `bounded` additionally requires a due date and orders by it,
/// descending. The page is cut by `limit` (default 10) and `offset`
/// (default 0), and the trailing note counts the rows of the whole table
/// beyond the page, whatever the active filters.
pub fn handle_list(conn: &rusqlite::Connection, opts: &ListOptions) -> (r: Result<String, String>)
    ensures
        !list_opts_valid(*opts) ==> r is Err && r->Err_0@ == "Invalid numeric argument"@,
        list_opts_valid(*opts) && r is Err ==> r->Err_0@ == "Error in preparing statement"@
            || r->Err_0@ == "Error in getting count"@,
        r is Ok ==> list_opts_valid(*opts),
        r is Ok ==> exists|rows: Seq<IdNameDate>, total: int|
            r->Ok_0@ == listing_text(
                rows,
                total,
                opt_field_val(opts.limit, 10),
                opt_field_val(opts.offset, 0),
            ),
{
    let day = match &opts.day {
        Some(s) => match parse_i64(s.as_str()) {
            Some(v) => Some(v),
            None => {
                return Err("Invalid numeric argument".to_owned());
            },
        },
        None => None,
    };
    let hour = match &opts.hour {
        Some(s) => match parse_i64(s.as_str()) {
            Some(v) => Some(v),
            None => {
                return Err("Invalid numeric argument".to_owned());
            },
        },
        None => None,
    };
    let minute = match &opts.minute {
        Some(s) => match parse_i64(s.as_str()) {
            Some(v) => Some(v),
            None => {
                return Err("Invalid numeric argument".to_owned());
            },
        },
        None => None,
    };
    let limit = match &opts.limit {
        Some(s) => match parse_i64(s.as_str()) {
            Some(v) => v,
            None => {
                return Err("Invalid numeric argument".to_owned());
            },
        },
        None => 10,
    };
    let offset = match &opts.offset {
        Some(s) => match parse_i64(s.as_str()) {
            Some(v) => v,
            None => {
                return Err("Invalid numeric argument".to_owned());
            },
        },
        None => 0,
    };
    let window = if day.is_none() && hour.is_none() && minute.is_none() {
        None
    } else {
        Some((day.unwrap_or(0), hour.unwrap_or(0), minute.unwrap_or(0)))
    };
    let q = build_list_query(
        opts.pending,
        opts.all,
        opts.completed,
        window,
        opts.bounded,
        limit,
        offset,
    );
    let rows = match db::query_task_rows(conn, q.as_str()) {
        Ok(rows) => rows,
        Err(_) => {
            return Err("Error in preparing statement".to_owned());
        },
    };
    let total = match db::query_single_i64(conn, "SELECT count(*) from task") {
        Ok(t) => t,
        Err(_) => {
            return Err("Error in getting count".to_owned());
        },
    };
    let s = format_listing(&rows, total, limit, offset);
    proof {
        assert(s@ == listing_text(
            rows@,
            total as int,
            opt_field_val(opts.limit, 10),
            opt_field_val(opts.offset, 0),
        ));
    }
    Ok(s)
}

/// Fetches one task by id and formats it like a listing line, without a
/// trailing newline; an id that matches nothing yields the empty string,
/// not an error.
pub fn handle_info(conn: &rusqlite::Connection, id: &str) -> (r: Result<String, String>)
    ensures
        !valid_i64_string(id@) ==> r is Err && r->Err_0@ == "Invalid task id"@,
        valid_i64_string(id@) && r is Err ==> r->Err_0@ == "Error in preparing statement"@,
        r is Ok ==> valid_i64_string(id@),
        r is Ok ==> exists|rows: Seq<IdNameDate>| r->Ok_0@ == info_text(rows),
{
    let tid = match parse_i64(id) {
        Some(v) => v,
        None => {
            return Err("Invalid task id".to_owned());
        },
    };
    let q = build_info_query(tid);
    match db::query_task_rows(conn, q.as_str()) {
        Ok(rows) => {
            let lines = crate::format::format_lines(&rows);
            let s = crate::format::drop_last_char(lines);
            proof {
                assert(s@ == info_text(rows@));
            }
            Ok(s)
        },
        Err(_) => Err("Error in preparing statement".to_owned()),
    }
}

/// Sets the completion state of the task with the given id: pending when
/// `pending` is true, completed otherwise. An id that matches nothing is a
/// successful no-op.
pub fn handle_convert(conn: &rusqlite::Connection, id: &str, pending: bool) -> (r: Result<
    String,
    String,
>)
    ensures
        !valid_i64_string(id@) ==> r is Err && r->Err_0@ == "Invalid task id"@,
        valid_i64_string(id@) && r is Err ==> r->Err_0@ == "Failed to execute update statement"@,
        r is Ok ==> valid_i64_string(id@),
        r is Ok ==> r->Ok_0@ == convert_message(pending),
{
    let tid = match parse_i64(id) {
        Some(v) => v,
        None => {
            return Err("Invalid task id".to_owned());
        },
    };
    let rendered = crate::num::i64_to_string(tid);
    let flag = if pending {
        "0"
    } else {
        "1"
    };
    match db::exec_sql_two_params(
        conn,
        "UPDATE task set is_completed = ?1 where id = ?2",
        flag,
        rendered.as_str(),
    ) {
        Ok(_) => {
            if pending {
                Ok("The task has been marked pending successfully".to_owned())
            } else {
                Ok("The task has been marked completed successfully".to_owned())
            }
        },
        Err(_) => Err("Failed to execute update statement".to_owned()),
    }
}

/// Deletes the task with the given id; an id that matches nothing is a
/// successful no-op.
pub fn handle_delete(conn: &rusqlite::Connection, id: &str) -> (r: Result<String, String>)
    ensures
        !valid_i64_string(id@) ==> r is Err && r->Err_0@ == "Invalid task id"@,
        valid_i64_string(id@) && r is Err ==> r->Err_0@ == "Failed to execute update statement"@,
        r is Ok ==> valid_i64_string(id@),
        r is Ok ==> r->Ok_0@ == "The task has been deleted successfully"@,
{
    let tid = match parse_i64(id) {
        Some(v) => v,
        None => {
            return Err("Invalid task id".to_owned());
        },
    };
    let rendered = crate::num::i64_to_string(tid);
    match db::exec_sql_one_param(conn, "DELETE from task where id = ?1", rendered.as_str()) {
        Ok(_) => Ok("The task has been deleted successfully".to_owned()),
        Err(_) => Err("Failed to execute update statement".to_owned()),
    }
}

/// Drops the task table if it exists and creates it fresh; destructive,
/// and safe to run repeatedly.
pub fn handle_setup(conn: &rusqlite::Connection) -> (r: Result<String, String>)
    ensures
        r is Ok ==> r->Ok_0@ == "Setup completed Successfully"@,
        r is Err ==> r->Err_0@ == "Error in dropping table"@ || r->Err_0@
            == "Error in creating table"@,
{
    if let Err(_) = db::exec_sql(conn, "DROP TABLE IF EXISTS task") {
        return Err("Error in dropping table".to_owned());
    }
    if let Err(_) = db::exec_sql(
        conn,
        "CREATE TABLE task( id integer primary key autoincrement, todo TEXT, info TEXT, due_on TEXT DEFAULT NONE, is_completed INTEGER)",
    ) {
        return Err("Error in creating table".to_owned());
    }
    Ok("Setup completed Successfully".to_owned())
}

/// Opens the store: the `todo.db` file in the user's home directory, or in
/// the working directory when no home directory is reported. What it
/// returns depends on the machine, so nothing more is stated of it.
pub fn get_connection() -> (r: Result<rusqlite::Connection, rusqlite::Error>) {
    let path = db::home_joined_path("todo.db");
    db::open_db(path.as_str())
}

} // verus!
