use boxy::clock::seconds_of;
use boxy::logging::{
    append_line, cleanup_old_logs, collect_log_files, date_text, frontend_log_line,
    log_file_name, log_path_display, may_append, newest_first, parse_log_file, read_lines_of,
    read_logs, resolve_log_dir, LogFile, MAX_LOG_BYTES, MAX_LOG_LINES,
};
use boxy::package::{Operation, Package};
use boxy::paths::{
    home_candidates, merge_entries, search_path, shell_path, split_path, system_paths,
};
use boxy::tui::{
    apply_search_filter, confirm_uninstall, confirm_update, handle_modal_key, keep_selection,
    list_window, operation_of, progress_cells, select_next, select_previous, InputMode, Key,
    ModalDecision, ModalState, PendingAction, StatusBar, UsageBar,
};
use boxy::view::{close_detail_view, View};

fn strings(list: &[&str]) -> Vec<String> {
    list.iter().map(|s| s.to_string()).collect()
}

#[test]
fn log_directory() {
    assert_eq!(resolve_log_dir(Some("/Users/a"), Some("/c")).unwrap(), "/Users/a/Library/Logs/Boxy");
    assert_eq!(resolve_log_dir(None, Some("/c")).unwrap(), "/c/Boxy/Logs");
    assert_eq!(resolve_log_dir(None, None).unwrap_err(), "无法解析日志目录");
    let shown = log_path_display().unwrap();
    assert!(shown.ends_with("/Library/Logs/Boxy") || shown.ends_with("/Boxy/Logs"));
}

#[test]
fn log_files_are_named_by_day() {
    assert_eq!(log_file_name("2024-05-17"), "boxy-2024-05-17.jsonl");
    assert_eq!(date_text("boxy-2024-05-17.jsonl").as_deref(), Some("2024-05-17"));
    assert_eq!(date_text("boxy-boxy-x.jsonl.jsonl").as_deref(), Some("x"));
    assert_eq!(date_text("boxy-.jsonl").as_deref(), Some(""));
    assert!(date_text("boxy-2024-05-17.json").is_none());
    assert!(date_text("other-2024-05-17.jsonl").is_none());
    assert!(date_text("boxy-").is_none());
    for name in ["boxy-2024-05-17.jsonl", "boxy-boxy-x.jsonl.jsonl", "boxy-.jsonl", "boxy-.jsonlboxy-.jsonl"] {
        let expected = name.trim_start_matches("boxy-").trim_end_matches(".jsonl");
        assert_eq!(date_text(name).as_deref(), Some(expected));
    }
    assert_eq!(parse_log_file("boxy-1970-01-01.jsonl"), Some(719_163));
    assert_eq!(parse_log_file("boxy-1970-01-08.jsonl"), Some(719_170));
    assert!(parse_log_file("boxy-1970-02-30.jsonl").is_none());
    assert!(parse_log_file("boxy-today.jsonl").is_none());
    assert!(parse_log_file("notes.txt").is_none());
}

#[test]
fn logs_are_kept_for_a_week() {
    let names = strings(&[
        "boxy-1970-01-01.jsonl",
        "boxy-1970-01-02.jsonl",
        "boxy-1970-01-09.jsonl",
        "readme.md",
        "boxy-never.jsonl",
    ]);
    assert!(cleanup_old_logs(&names, 719_170).is_empty());
    assert_eq!(cleanup_old_logs(&names, 719_171), strings(&["boxy-1970-01-01.jsonl"]));
    assert_eq!(
        cleanup_old_logs(&names, 719_172),
        strings(&["boxy-1970-01-01.jsonl", "boxy-1970-01-02.jsonl"])
    );
    assert!(cleanup_old_logs(&names, 719_163).is_empty());
    assert!(cleanup_old_logs(&names, i32::MIN).is_empty());
    let files = collect_log_files(&names);
    let days: Vec<i32> = files.iter().map(|f| f.day).collect();
    assert_eq!(days, vec![719_163, 719_164, 719_171]);
    let mut more = files.clone();
    more.push(LogFile { day: 719_164, name: "second of the day".to_string() });
    let shown: Vec<(i32, String)> =
        newest_first(&more).into_iter().map(|f| (f.day, f.name)).collect();
    assert_eq!(
        shown,
        vec![
            (719_171, "boxy-1970-01-09.jsonl".to_string()),
            (719_164, "boxy-1970-01-02.jsonl".to_string()),
            (719_164, "second of the day".to_string()),
            (719_163, "boxy-1970-01-01.jsonl".to_string()),
        ]
    );
    assert!(newest_first(&vec![]).is_empty());
}

#[test]
fn log_lines() {
    assert_eq!(append_line("{}"), "{}\n");
    assert!(may_append(None));
    assert!(may_append(Some(MAX_LOG_BYTES - 1)));
    assert!(!may_append(Some(MAX_LOG_BYTES)));
    assert_eq!(MAX_LOG_BYTES, 5 * 1024 * 1024);
    assert_eq!(read_lines_of("a\n\n  \n b \n"), strings(&["a", " b "]));
    let shown = read_logs(&strings(&["new1\nnew2\n", "", "old1\n\n"]));
    assert_eq!(shown, strings(&["new1", "new2", "old1"]));
    let many = "x\n".repeat(1500);
    let capped = read_logs(&vec![many.clone(), many.clone(), many]);
    assert_eq!(capped.len(), MAX_LOG_LINES);
    let exact = "x\n".repeat(2000);
    assert_eq!(read_logs(&vec![exact, "y\n".to_string()]).len(), 2000);
    let line = frontend_log_line("2024-05-17T10:00:00+02:00", "warn", "say \"hi\"").unwrap();
    let value: serde_json::Value = serde_json::from_str(&line).unwrap();
    assert_eq!(value["timestamp"], "2024-05-17T10:00:00+02:00");
    assert_eq!(value["level"], "warn");
    assert_eq!(value["target"], "frontend");
    assert_eq!(value["message"], "say \"hi\"");
    assert!(!line.contains('\n'));
}

#[test]
fn selection_wraps_around() {
    assert_eq!(select_next(0, 3), 1);
    assert_eq!(select_next(2, 3), 0);
    assert_eq!(select_next(0, 0), 0);
    assert_eq!(select_previous(0, 3), 2);
    assert_eq!(select_previous(2, 3), 1);
    assert_eq!(select_previous(0, 0), 0);
    assert_eq!(select_next(0, 1), 0);
    assert_eq!(keep_selection(3, 3), 0);
    assert_eq!(keep_selection(2, 3), 2);
    assert_eq!(list_window(0, 10, 3), (0, 3));
    assert_eq!(list_window(12, 10, 30), (3, 13));
    assert_eq!(list_window(29, 10, 30), (20, 30));
    assert_eq!(list_window(5, 0, 30), (5, 6));
    assert_eq!(list_window(0, 5, 0), (0, 0));
    assert_eq!(progress_cells(0, 20), 0);
    assert_eq!(progress_cells(50, 20), 10);
    assert_eq!(progress_cells(99, 20), 19);
    assert_eq!(progress_cells(100, 20), 20);
    assert_eq!(progress_cells(250, 20), 20);
}

#[test]
fn search_shows_names_that_hold_the_query() {
    let all: Vec<Package> = ["Requests", "urllib3", "pytest-REQUESTS", "flask"]
        .iter()
        .map(|n| Package::bare(n.to_string(), "1".into(), "pip".into()))
        .collect();
    let names = |list: Vec<Package>| list.into_iter().map(|p| p.name).collect::<Vec<_>>();
    assert_eq!(names(apply_search_filter(&all, "request")), vec!["Requests", "pytest-REQUESTS"]);
    assert_eq!(names(apply_search_filter(&all, "LIB")), vec!["urllib3"]);
    assert_eq!(apply_search_filter(&all, "").len(), 4);
    assert!(apply_search_filter(&all, "zzz").is_empty());
}

#[test]
fn dialogs() {
    let (action, modal) = confirm_update("npm", "left-pad");
    assert!(matches!(&action, PendingAction::Update { manager, package } if manager == "npm" && package == "left-pad"));
    assert!(matches!(&modal, ModalState::Confirm { title, message } if title == "Update Package" && message == "Update left-pad from npm?"));
    assert_eq!(operation_of(&action), Operation::Update);
    let (action, asked) = confirm_uninstall("brew", "jq", true);
    assert!(matches!(&action, PendingAction::Uninstall { force: true, .. }));
    assert!(matches!(&asked, ModalState::Confirm { title, message } if title == "Uninstall Package" && message == "Uninstall jq from brew?"));
    assert_eq!(operation_of(&action), Operation::Uninstall);
    assert_eq!(handle_modal_key(&modal, Key::Char('y')), ModalDecision::Confirm);
    assert_eq!(handle_modal_key(&modal, Key::Enter), ModalDecision::Confirm);
    assert_eq!(handle_modal_key(&modal, Key::Char('n')), ModalDecision::Close);
    assert_eq!(handle_modal_key(&modal, Key::Esc), ModalDecision::Close);
    assert_eq!(handle_modal_key(&modal, Key::Char('x')), ModalDecision::Stay);
    let logs = ModalState::Logs { title: "Job 1".into(), lines: vec![] };
    assert_eq!(handle_modal_key(&logs, Key::Esc), ModalDecision::Close);
    assert_eq!(handle_modal_key(&logs, Key::Enter), ModalDecision::Stay);
    let done = ModalState::Success { title: "t".into(), message: "m".into() };
    assert_eq!(handle_modal_key(&done, Key::Other), ModalDecision::Close);
    let failed = ModalState::Error { title: "t".into(), message: "m".into() };
    assert_eq!(handle_modal_key(&failed, Key::Up), ModalDecision::Close);
    assert_eq!(close_detail_view(None), View::Dashboard);
    assert_eq!(
        close_detail_view(Some(View::ManagerDetail("npm".into()))),
        View::ManagerDetail("npm".into())
    );
    assert_eq!(
        close_detail_view(Some(View::PackageDetail("jq".into()))),
        View::PackageDetail("jq".into())
    );
}

#[test]
fn bars() {
    let bar = StatusBar::new(InputMode::Search, "⚠️  有更新可用".to_string());
    assert_eq!(bar.mode_text(), "SEARCH");
    assert_eq!(bar.message(), "⚠️  有更新可用");
    assert!(bar.has_update_warning());
    assert!(StatusBar::new(InputMode::Normal, "3 个包可更新".to_string()).has_update_warning());
    let calm = StatusBar::new(InputMode::ActionMenu, "就绪".to_string());
    assert!(!calm.has_update_warning());
    assert_eq!(calm.mode_text(), "ACTION");
    assert_eq!(StatusBar::new(InputMode::Normal, String::new()).mode_text(), "NORMAL");
    assert_eq!(UsageBar::new("[q] quit".to_string()).text(), "[q] quit");
}

#[test]
fn search_path_keeps_each_place_once() {
    assert_eq!(
        merge_entries(&strings(&["/a", " /b ", "", "/a", "  ", "/b", "/c"])),
        strings(&["/a", "/b", "/c"])
    );
    assert_eq!(split_path("/a:/b::"), strings(&["/a", "/b", "", ""]));
    assert_eq!(split_path(""), strings(&[""]));
    assert_eq!(home_candidates("/Users/a")[0], "/Users/a/.cargo/bin");
    assert_eq!(home_candidates("/Users/a").len(), 7);
    assert_eq!(system_paths().len(), 8);
    let path = search_path(
        "/usr/bin:/x",
        Some("/y:/usr/bin"),
        &strings(&["/Users/a/.cargo/bin"]),
    )
    .unwrap();
    assert_eq!(
        path,
        "/usr/bin:/x:/y:/Users/a/.cargo/bin:/opt/homebrew/bin:/opt/homebrew/sbin:/usr/local/bin:/usr/local/sbin:/bin:/usr/sbin:/sbin"
    );
    assert!(search_path("", None, &vec![]).unwrap().starts_with("/opt/homebrew/bin:"));
    assert_eq!(shell_path(true, " /a:/b \n").unwrap(), "/a:/b");
    assert_eq!(shell_path(false, "/a").unwrap_err(), "读取 shell PATH 失败");
    assert_eq!(shell_path(true, " \n").unwrap_err(), "shell PATH 为空");
}

#[test]
fn seconds_are_the_milliseconds_rounded_down() {
    assert_eq!(seconds_of(0), 0);
    assert_eq!(seconds_of(999), 0);
    assert_eq!(seconds_of(1_000), 1);
    assert_eq!(seconds_of(1_700_000_000_123), 1_700_000_000);
    assert_eq!(seconds_of(-1), -1);
    assert_eq!(seconds_of(-1_000), -1);
    assert_eq!(seconds_of(-1_001), -2);
    assert_eq!(seconds_of(i64::MAX), 9_223_372_036_854_775);
    assert_eq!(seconds_of(i64::MIN), -9_223_372_036_854_776);
}
