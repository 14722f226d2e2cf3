use rspm::commands::{command_exit_code, kill_failed_by_name_message, kill_failed_message,
    name_not_found_message, pid_not_found_message, pids_with_name, signal_failed_message,
    snapshot_rows};
use rspm::query::text_matches;
use rspm::render::{display_row, footer_line, header_row, render_lines};
use rspm::session::{Action, App, Key};
use rspm::snapshot::{dedup_by_pid, normalize_snapshot, sort_by_pid_order};
use rspm::textfmt::{clock_string, local_secs_of_day, pad_to, secs_of_day_at_offset,
    two_digit_string, u64_string};
use rspm::{row_text, ProcessRecord};

fn record(pid: u32, name: &str) -> ProcessRecord {
    ProcessRecord {
        pid,
        owner_id: 1000,
        cpu_centi_percent: 125,
        memory_bytes: 3 * 1048576,
        start_secs_of_day: 3661,
        name: String::from(name),
    }
}

#[test]
fn refresh_sorts_ascending_by_pid() {
    let app = App::new(vec![record(10, "a"), record(2, "b")]);
    let pids: Vec<u32> = app.processes.iter().map(|r| r.pid).collect();
    assert_eq!(pids, vec![2, 10]);
    assert_eq!(app.processes[0].name, "b");
    assert_eq!(app.cursor, Some(1));
}

#[test]
fn refresh_drops_duplicate_pids() {
    let app = App::new(vec![record(7, "x"), record(3, "y"), record(7, "z"), record(1, "w")]);
    let pids: Vec<u32> = app.processes.iter().map(|r| r.pid).collect();
    assert_eq!(pids, vec![1, 3, 7]);
}

#[test]
fn refresh_of_empty_snapshot_clears_cursor() {
    let app = App::new(Vec::new());
    assert_eq!(app.cursor, None);
    assert!(app.processes.is_empty());
}

#[test]
fn filter_keeps_matching_names_only() {
    let mut app = App::new(vec![record(1, "gitd"), record(2, "init"), record(3, "legit")]);
    app.enter_search_mode();
    app.push_query_char('g');
    app.push_query_char('i');
    app.push_query_char('t');
    let names: Vec<String> = app.filtered_processes.iter().map(|r| r.name.clone()).collect();
    assert_eq!(names, vec![String::from("gitd"), String::from("legit")]);
    assert_eq!(app.cursor, Some(1));
}

#[test]
fn filter_with_empty_query_shows_everything() {
    let mut app = App::new(vec![record(1, "gitd"), record(2, "init")]);
    app.enter_search_mode();
    assert_eq!(app.filtered_processes.len(), 2);
    app.push_query_char('z');
    assert_eq!(app.filtered_processes.len(), 0);
    assert_eq!(app.cursor, None);
    app.pop_query_char();
    assert_eq!(app.filtered_processes.len(), 2);
    assert_eq!(app.cursor, Some(1));
}

#[test]
fn matching_ignores_case() {
    assert!(text_matches("GIT", "legit"));
    assert!(text_matches("git", "GITD"));
    assert!(!text_matches("git", "bash"));
    assert!(text_matches("", "anything"));
}

#[test]
fn navigation_wraps_circularly() {
    let mut app = App::new(vec![record(1, "a"), record(2, "b"), record(3, "c")]);
    let start = app.cursor;
    for _ in 0..app.processes.len() + 1 {
        app.next_item();
    }
    assert_eq!(app.cursor, start);
    app.previous_item();
    assert_eq!(app.cursor, Some(0));
    app.previous_item();
    assert_eq!(app.cursor, Some(3));
}

#[test]
fn navigation_on_empty_list_is_noop() {
    let mut app = App::new(Vec::new());
    app.next_item();
    assert_eq!(app.cursor, None);
    app.previous_item();
    assert_eq!(app.cursor, None);
}

#[test]
fn initiate_then_cancel_restores_state() {
    let mut app = App::new(vec![record(4, "a"), record(9, "b")]);
    let cursor_before = app.cursor;
    let pids_before: Vec<u32> = app.processes.iter().map(|r| r.pid).collect();
    app.initiate_kill();
    assert_eq!(app.pid_to_kill, Some(4));
    app.cancel_kill();
    assert_eq!(app.pid_to_kill, None);
    assert_eq!(app.cursor, cursor_before);
    let pids_after: Vec<u32> = app.processes.iter().map(|r| r.pid).collect();
    assert_eq!(pids_after, pids_before);
}

#[test]
fn initiate_on_header_is_noop() {
    let mut app = App::new(vec![record(4, "a")]);
    app.cursor = Some(0);
    app.initiate_kill();
    assert_eq!(app.pid_to_kill, None);
}

#[test]
fn entering_filter_mode_twice_equals_once() {
    let mut once = App::new(vec![record(1, "a"), record(2, "b")]);
    once.enter_search_mode();
    let mut twice = App::new(vec![record(1, "a"), record(2, "b")]);
    twice.enter_search_mode();
    twice.enter_search_mode();
    assert_eq!(once.search_mode, twice.search_mode);
    assert_eq!(once.search_query, twice.search_query);
    assert_eq!(once.cursor, twice.cursor);
    assert_eq!(once.filtered_processes.len(), twice.filtered_processes.len());
}

#[test]
fn confirm_key_yields_kill_action() {
    let mut app = App::new(vec![record(4, "a"), record(9, "b")]);
    let act = app.handle_key_events(Key::Enter);
    assert_eq!(act, Action::Stay);
    assert_eq!(app.pid_to_kill, Some(4));
    let act = app.handle_key_events(Key::Char('y'));
    assert_eq!(act, Action::Kill(4));
    assert_eq!(app.pid_to_kill, None);
}

#[test]
fn confirmation_consumes_other_keys() {
    let mut app = App::new(vec![record(4, "a")]);
    app.handle_key_events(Key::Enter);
    let act = app.handle_key_events(Key::Char('q'));
    assert_eq!(act, Action::Stay);
    assert!(!app.exit);
    assert_eq!(app.pid_to_kill, Some(4));
    let act = app.handle_key_events(Key::Char('n'));
    assert_eq!(act, Action::Stay);
    assert_eq!(app.pid_to_kill, None);
}

#[test]
fn quit_key_sets_exit_in_normal_mode() {
    let mut app = App::new(vec![record(4, "a")]);
    let act = app.handle_key_events(Key::Char('q'));
    assert_eq!(act, Action::Stay);
    assert!(app.exit);
}

#[test]
fn refresh_key_requests_refresh() {
    let mut app = App::new(vec![record(4, "a")]);
    assert_eq!(app.handle_key_events(Key::Char('r')), Action::Refresh);
}

#[test]
fn escape_leaves_filter_mode() {
    let mut app = App::new(vec![record(4, "abc")]);
    app.handle_key_events(Key::Char('s'));
    assert!(app.search_mode);
    app.handle_key_events(Key::Char('a'));
    assert_eq!(app.filtered_processes.len(), 1);
    let act = app.handle_key_events(Key::Esc);
    assert_eq!(act, Action::Stay);
    assert!(!app.search_mode);
    assert_eq!(app.search_query, "");
}

#[test]
fn kill_by_name_with_no_match_reports_not_found() {
    let procs = vec![record(1, "bash"), record(2, "init")];
    let targets = pids_with_name(&procs, &String::from("ghost"));
    assert!(targets.is_empty());
    let code = command_exit_code(targets.len());
    assert_eq!(code, 1);
    assert_eq!(name_not_found_message(&String::from("ghost")), "Process 'ghost' not found");
}

#[test]
fn kill_by_name_matches_exactly() {
    let procs = vec![record(1, "bash"), record(2, "bash"), record(3, "bashful")];
    let targets = pids_with_name(&procs, &String::from("bash"));
    assert_eq!(targets, vec![1, 2]);
    assert_eq!(command_exit_code(targets.len()), 0);
}

#[test]
fn diagnostics_name_their_subject() {
    assert_eq!(pid_not_found_message(42), "PID '42' not found");
    assert_eq!(kill_failed_message(7), "Failed to kill process '7'");
    assert_eq!(
        kill_failed_by_name_message(&String::from("bash")),
        "Failed to kill process 'bash'"
    );
    assert_eq!(signal_failed_message(7), "Failed to signal process '7'");
}

#[test]
fn numbers_format_in_decimal() {
    assert_eq!(u64_string(0), "0");
    assert_eq!(u64_string(90210), "90210");
    assert_eq!(two_digit_string(5), "05");
    assert_eq!(two_digit_string(59), "59");
}

#[test]
fn clock_formats_hours_minutes_seconds() {
    assert_eq!(clock_string(0), "00:00:00");
    assert_eq!(clock_string(3661), "01:01:01");
    assert_eq!(clock_string(86399), "23:59:59");
    assert_eq!(clock_string(86400), "00:00:00");
}

#[test]
fn padding_extends_to_width() {
    assert_eq!(pad_to(String::from("ab"), 5), "ab   ");
    assert_eq!(pad_to(String::from("abcdef"), 3), "abcdef");
}

#[test]
fn row_text_tabulates_every_field() {
    let r = record(42, "bash");
    assert_eq!(row_text(&r), "42\t1000\t1.25%\t3MB\t01:01:01\tbash");
}

#[test]
fn display_row_uses_fixed_columns() {
    let r = record(42, "bash");
    assert_eq!(display_row(&r), "42       1000     1.25%    3MB      01:01:01   bash");
    assert_eq!(
        header_row(),
        "PID      UID      CPU      MEM      START      NAME"
    );
}

#[test]
fn renderer_lays_out_title_rows_and_footer() {
    let mut app = App::new(vec![record(1, "a"), record(2, "b")]);
    let lines = render_lines(&app);
    assert_eq!(lines.len(), 5);
    assert_eq!(lines[0], "Rspm Top");
    assert!(lines[1].starts_with("  PID"));
    assert!(lines[2].starts_with("> 1"));
    assert!(lines[3].starts_with("  2"));
    assert!(lines[4].contains("Navigate"));
    app.initiate_kill();
    let confirming = render_lines(&app);
    assert_eq!(confirming.len(), 7);
    assert_eq!(confirming[1], "Kill process 1 ? (Y/N)");
    assert_eq!(confirming[2], "");
    assert!(confirming[6].contains("Confirm Kill"));
}

#[test]
fn footer_follows_the_mode() {
    let mut app = App::new(vec![record(1, "a")]);
    assert!(footer_line(&app).contains("Quit <Q>"));
    app.enter_search_mode();
    app.push_query_char('x');
    let footer = footer_line(&app);
    assert!(footer.contains("Search: x"));
}

#[test]
fn sort_and_dedup_normalize_any_order() {
    let sorted = sort_by_pid_order(vec![record(5, "e"), record(1, "a"), record(3, "c")]);
    let pids: Vec<u32> = sorted.iter().map(|r| r.pid).collect();
    assert_eq!(pids, vec![1, 3, 5]);
    let deduped = dedup_by_pid(sorted);
    assert_eq!(deduped.len(), 3);
    let normal = normalize_snapshot(vec![record(2, "b"), record(2, "b2"), record(1, "a")]);
    let pids: Vec<u32> = normal.iter().map(|r| r.pid).collect();
    assert_eq!(pids, vec![1, 2]);
}

#[test]
fn snapshot_rows_follow_the_records() {
    let rows = snapshot_rows(&vec![record(1, "a"), record(2, "b")]);
    assert_eq!(rows.len(), 2);
    assert!(rows[0].starts_with("1\t"));
    assert!(rows[1].ends_with("\tb"));
}

#[test]
fn offset_shift_wraps_into_one_day() {
    assert_eq!(secs_of_day_at_offset(3600, 0), 3600);
    assert_eq!(secs_of_day_at_offset(3600, -7200), 82800);
    assert_eq!(secs_of_day_at_offset(86400 + 82800, 7200), 3600);
}

#[test]
fn local_second_of_day_is_in_range() {
    assert!(local_secs_of_day(0) < 86400);
    assert!(local_secs_of_day(1_700_000_000) < 86400);
    let r = ProcessRecord::new(9, 0, 0, 0, 1_700_000_000, String::from("x"));
    assert_eq!(r.pid, 9);
    assert!(r.start_secs_of_day < 86400);
    let far = ProcessRecord::new(9, 0, 0, 0, 100_000_000_000, String::from("x"));
    assert_eq!(far.start_secs_of_day, 0);
}
