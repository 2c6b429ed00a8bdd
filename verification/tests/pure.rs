use todo_manager::format::{format_listing, format_task_line, IdNameDate};
use todo_manager::num::{i64_to_string, i128_to_string, parse_i64, u64_to_string, u128_to_string};
use todo_manager::query::{build_add_query, build_info_query, build_list_query};

#[test]
fn parse_simple_values() {
    assert_eq!(parse_i64("0"), Some(0));
    assert_eq!(parse_i64("10"), Some(10));
    assert_eq!(parse_i64("-5"), Some(-5));
    assert_eq!(parse_i64("007"), Some(7));
    assert_eq!(parse_i64("-0"), Some(0));
}

#[test]
fn parse_rejects_malformed_text() {
    assert_eq!(parse_i64(""), None);
    assert_eq!(parse_i64("-"), None);
    assert_eq!(parse_i64("abc"), None);
    assert_eq!(parse_i64("12x"), None);
    assert_eq!(parse_i64(" 12"), None);
    assert_eq!(parse_i64("1.5"), None);
    assert_eq!(parse_i64("+12"), None);
}

#[test]
fn parse_handles_the_i64_bounds() {
    assert_eq!(parse_i64("9223372036854775807"), Some(i64::MAX));
    assert_eq!(parse_i64("-9223372036854775808"), Some(i64::MIN));
    assert_eq!(parse_i64("9223372036854775808"), None);
    assert_eq!(parse_i64("-9223372036854775809"), None);
    assert_eq!(parse_i64("99999999999999999999999"), None);
}

#[test]
fn render_simple_values() {
    assert_eq!(u64_to_string(0), "0");
    assert_eq!(u64_to_string(907), "907");
    assert_eq!(i64_to_string(-42), "-42");
    assert_eq!(i64_to_string(i64::MIN), "-9223372036854775808");
    assert_eq!(u128_to_string(u128::MAX), "340282366920938463463374607431768211455");
    assert_eq!(i128_to_string(i128::MIN), "-170141183460469231731687303715884105728");
}

#[test]
fn render_then_parse_restores_the_value() {
    for v in [0i64, 1, -1, 10, 99, -100, i64::MAX, i64::MIN] {
        assert_eq!(parse_i64(&i64_to_string(v)), Some(v));
    }
}

#[test]
fn task_line_without_due_date_has_no_suffix() {
    let row = IdNameDate { x1: 7, x2: String::from("buy milk"), x3: None };
    assert_eq!(format_task_line(&row), "7\tbuy milk\n");
}

#[test]
fn task_line_with_due_date_carries_the_note() {
    let row = IdNameDate {
        x1: 3,
        x2: String::from("call home"),
        x3: Some(String::from("2024/01/02 at 09:30")),
    };
    assert_eq!(format_task_line(&row), "3\tcall home\t Due on 2024/01/02 at 09:30\n");
}

#[test]
fn listing_reports_the_rows_beyond_the_page() {
    let rows = vec![IdNameDate { x1: 3, x2: String::from("c"), x3: None }];
    // three rows in the table, one fetched: two more remain
    assert_eq!(format_listing(&rows, 3, 1, 0), "3\tc\nand 2 tasks more");
}

#[test]
fn listing_without_remainder_drops_the_last_newline() {
    let rows = vec![
        IdNameDate { x1: 2, x2: String::from("b"), x3: None },
        IdNameDate { x1: 1, x2: String::from("a"), x3: None },
    ];
    assert_eq!(format_listing(&rows, 2, 10, 0), "2\tb\n1\ta");
    let none: Vec<IdNameDate> = Vec::new();
    assert_eq!(format_listing(&none, 0, 10, 0), "");
}

#[test]
fn add_query_interpolates_the_offsets() {
    assert_eq!(
        build_add_query(1, 0, 30),
        "INSERT INTO task(todo, is_completed, due_on) VALUES(?1, ?2, \
         datetime('now', 'localtime', '+1 days', '+0 hours', '+30 minutes')) "
    );
}

#[test]
fn list_query_default_filters_pending_newest_first() {
    assert_eq!(
        build_list_query(false, false, false, None, false, 10, 0),
        "SELECT id, todo, strftime('%Y/%m/%d at %H:%M', due_on) from task \
         where is_completed = 0 order by id desc LIMIT 10 OFFSET 0"
    );
}

#[test]
fn list_query_pending_wins_over_other_flags() {
    let q = build_list_query(true, true, true, None, false, 10, 0);
    assert!(q.contains("is_completed = 0"));
}

#[test]
fn list_query_all_has_no_completion_filter() {
    let q = build_list_query(false, true, false, None, false, 10, 0);
    assert!(!q.contains("is_completed"));
}

#[test]
fn list_query_completed_filters_completed() {
    let q = build_list_query(false, false, true, None, false, 10, 0);
    assert!(q.contains("is_completed = 1"));
}

#[test]
fn list_query_window_and_bounded() {
    assert_eq!(
        build_list_query(false, false, false, Some((1, 2, 3)), true, 5, 2),
        "SELECT id, todo, strftime('%Y/%m/%d at %H:%M', due_on) from task \
         where is_completed = 0 AND due_on > datetime('now', 'localtime') \
         AND due_on < datetime('now', 'localtime', '+1 days', '+2 hours', '+3 minutes') \
         AND due_on IS NOT NULL order by due_on desc LIMIT 5 OFFSET 2"
    );
}

#[test]
fn info_query_interpolates_the_id() {
    assert_eq!(
        build_info_query(12),
        "SELECT id, todo, strftime('%Y/%m/%d at %H:%M', due_on) from task where id = 12"
    );
}
