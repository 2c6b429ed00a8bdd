use rusqlite::Connection;
use todo_manager::store::{
    handle_add, handle_convert, handle_delete, handle_info, handle_list, handle_setup,
    ListOptions,
};

fn fresh_store() -> Connection {
    let conn = Connection::open_in_memory().expect("in-memory store");
    handle_setup(&conn).expect("setup");
    conn
}

fn options() -> ListOptions {
    ListOptions {
        pending: false,
        completed: false,
        all: false,
        bounded: false,
        day: None,
        hour: None,
        minute: None,
        limit: None,
        offset: None,
    }
}

#[test]
fn add_without_offsets_leaves_the_due_date_null() {
    let conn = fresh_store();
    let added = handle_add(&conn, Some("buy milk"), None, None, None).unwrap();
    assert_eq!(added, "1\tbuy milk");
    let info = handle_info(&conn, "1").unwrap();
    assert_eq!(info, "1\tbuy milk");
    assert!(!info.contains("Due on"));
}

#[test]
fn add_with_day_offset_is_due_a_day_ahead() {
    let conn = fresh_store();
    handle_add(&conn, Some("t"), Some("1"), Some("0"), Some("0")).unwrap();
    let days: f64 = conn
        .query_row(
            "SELECT julianday(due_on) - julianday('now', 'localtime') FROM task",
            [],
            |row| row.get(0),
        )
        .unwrap();
    assert!(days > 0.999 && days < 1.001, "due {days} days ahead");
    let info = handle_info(&conn, "1").unwrap();
    assert!(info.contains("\t Due on "));
}

#[test]
fn add_without_text_is_refused() {
    let conn = fresh_store();
    assert_eq!(handle_add(&conn, None, None, None, None), Err("No Task found".to_string()));
}

#[test]
fn add_with_malformed_offset_is_refused() {
    let conn = fresh_store();
    assert_eq!(
        handle_add(&conn, Some("t"), Some("soon"), None, None),
        Err("Invalid offset value".to_string())
    );
}

#[test]
fn add_without_a_table_reports_the_insert_error() {
    let conn = Connection::open_in_memory().unwrap();
    assert_eq!(
        handle_add(&conn, Some("t"), None, None, None),
        Err("Error inserting into db".to_string())
    );
}

#[test]
fn list_default_returns_incomplete_newest_first() {
    let conn = fresh_store();
    handle_add(&conn, Some("a"), None, None, None).unwrap();
    handle_add(&conn, Some("b"), None, None, None).unwrap();
    handle_add(&conn, Some("c"), None, None, None).unwrap();
    let listing = handle_list(&conn, &options()).unwrap();
    assert_eq!(listing, "3\tc\n2\tb\n1\ta");
}

#[test]
fn list_all_returns_complete_and_incomplete() {
    let conn = fresh_store();
    handle_add(&conn, Some("a"), None, None, None).unwrap();
    handle_add(&conn, Some("b"), None, None, None).unwrap();
    handle_convert(&conn, "1", false).unwrap();
    let listing = handle_list(&conn, &ListOptions { all: true, ..options() }).unwrap();
    assert_eq!(listing, "2\tb\n1\ta");
}

#[test]
fn list_cuts_the_page_and_counts_the_rest() {
    let conn = fresh_store();
    handle_add(&conn, Some("a"), None, None, None).unwrap();
    handle_add(&conn, Some("b"), None, None, None).unwrap();
    handle_add(&conn, Some("c"), None, None, None).unwrap();
    let listing = handle_list(
        &conn,
        &ListOptions { limit: Some("1".to_string()), offset: Some("0".to_string()), ..options() },
    )
    .unwrap();
    assert_eq!(listing, "3\tc\nand 2 tasks more");
}

#[test]
fn completed_filter_tracks_the_status() {
    let conn = fresh_store();
    handle_add(&conn, Some("a"), None, None, None).unwrap();
    handle_add(&conn, Some("b"), None, None, None).unwrap();
    handle_convert(&conn, "2", false).unwrap();
    let completed = handle_list(&conn, &ListOptions { completed: true, ..options() }).unwrap();
    assert_eq!(completed, "2\tb");
    let pending = handle_list(&conn, &options()).unwrap();
    assert_eq!(pending, "1\ta");
    let explicit = handle_list(&conn, &ListOptions { pending: true, ..options() }).unwrap();
    assert_eq!(explicit, "1\ta");
}

#[test]
fn window_keeps_only_tasks_due_inside_it() {
    let conn = fresh_store();
    handle_add(&conn, Some("soon"), Some("0"), Some("1"), Some("0")).unwrap();
    handle_add(&conn, Some("later"), Some("3"), Some("0"), Some("0")).unwrap();
    handle_add(&conn, Some("never"), None, None, None).unwrap();
    let listing =
        handle_list(&conn, &ListOptions { day: Some("1".to_string()), ..options() }).unwrap();
    assert!(listing.starts_with("1\tsoon\t Due on "), "{listing}");
    assert!(!listing.contains("later"));
    assert!(!listing.contains("never"));
}

#[test]
fn bounded_orders_by_due_date_descending() {
    let conn = fresh_store();
    handle_add(&conn, Some("near"), Some("1"), Some("0"), Some("0")).unwrap();
    handle_add(&conn, Some("far"), Some("2"), Some("0"), Some("0")).unwrap();
    handle_add(&conn, Some("undated"), None, None, None).unwrap();
    let listing = handle_list(&conn, &ListOptions { bounded: true, ..options() }).unwrap();
    let lines: Vec<&str> = listing.lines().collect();
    // The schema fills due_on with the text 'NONE' when no offset was given,
    // so even an undated task passes the not-null filter and sorts above
    // every real date.
    assert_eq!(lines.len(), 3);
    assert_eq!(lines[0], "3\tundated");
    assert!(lines[1].starts_with("2\tfar\t Due on "));
    assert!(lines[2].starts_with("1\tnear\t Due on "));
}

#[test]
fn list_with_malformed_number_is_refused() {
    let conn = fresh_store();
    assert_eq!(
        handle_list(&conn, &ListOptions { limit: Some("ten".to_string()), ..options() }),
        Err("Invalid numeric argument".to_string())
    );
    assert_eq!(
        handle_list(&conn, &ListOptions { day: Some("1.5".to_string()), ..options() }),
        Err("Invalid numeric argument".to_string())
    );
}

#[test]
fn list_without_a_table_reports_the_query_error() {
    let conn = Connection::open_in_memory().unwrap();
    assert_eq!(
        handle_list(&conn, &options()),
        Err("Error in preparing statement".to_string())
    );
}

#[test]
fn info_of_a_deleted_task_is_empty() {
    let conn = fresh_store();
    handle_add(&conn, Some("a"), None, None, None).unwrap();
    let deleted = handle_delete(&conn, "1").unwrap();
    assert_eq!(deleted, "The task has been deleted successfully");
    assert_eq!(handle_info(&conn, "1"), Ok(String::new()));
}

#[test]
fn delete_of_a_missing_id_still_succeeds() {
    let conn = fresh_store();
    assert_eq!(
        handle_delete(&conn, "99"),
        Ok("The task has been deleted successfully".to_string())
    );
}

#[test]
fn info_round_trip_matches_what_was_added() {
    let conn = fresh_store();
    let added = handle_add(&conn, Some("exact text"), None, None, None).unwrap();
    let id = added.split('\t').next().unwrap().to_string();
    assert_eq!(id, "1");
    let info = handle_info(&conn, &id).unwrap();
    assert_eq!(info, format!("{id}\texact text"));
}

#[test]
fn info_with_malformed_id_is_refused() {
    let conn = fresh_store();
    assert_eq!(handle_info(&conn, "abc"), Err("Invalid task id".to_string()));
}

#[test]
fn update_status_twice_is_idempotent() {
    let conn = fresh_store();
    handle_add(&conn, Some("a"), None, None, None).unwrap();
    let first = handle_convert(&conn, "1", false).unwrap();
    let second = handle_convert(&conn, "1", false).unwrap();
    assert_eq!(first, "The task has been marked completed successfully");
    assert_eq!(first, second);
    let completed = handle_list(&conn, &ListOptions { completed: true, ..options() }).unwrap();
    assert_eq!(completed, "1\ta");
    let back = handle_convert(&conn, "1", true).unwrap();
    assert_eq!(back, handle_convert(&conn, "1", true).unwrap());
    assert_eq!(back, "The task has been marked pending successfully");
    assert_eq!(handle_list(&conn, &options()).unwrap(), "1\ta");
}

#[test]
fn update_status_with_malformed_id_is_refused() {
    let conn = fresh_store();
    assert_eq!(handle_convert(&conn, "x", true), Err("Invalid task id".to_string()));
}

#[test]
fn setup_twice_leaves_an_empty_table() {
    let conn = Connection::open_in_memory().unwrap();
    assert_eq!(handle_setup(&conn), Ok("Setup completed Successfully".to_string()));
    handle_add(&conn, Some("left over"), None, None, None).unwrap();
    assert_eq!(handle_setup(&conn), Ok("Setup completed Successfully".to_string()));
    assert_eq!(handle_list(&conn, &ListOptions { all: true, ..options() }).unwrap(), "");
}
