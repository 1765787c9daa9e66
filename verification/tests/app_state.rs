use boxy::app_state::{App, Command, KeyEvent};
use boxy::jobs::TaskStore;
use boxy::package::{ManagerStatus, Operation, Package};
use boxy::tui::{InputMode, Key, ModalState, PendingAction};
use boxy::view::View;

fn key(key: Key) -> KeyEvent {
    KeyEvent { key, control: false }
}

fn manager(name: &str) -> ManagerStatus {
    ManagerStatus {
        name: name.to_string(),
        version: String::new(),
        available: true,
        package_count: 0,
        outdated_count: 0,
    }
}

fn pkg(name: &str, outdated: bool) -> Package {
    let mut p = Package::bare(name.to_string(), "1".to_string(), "npm".to_string());
    p.outdated = outdated;
    p
}

fn loaded() -> (App, TaskStore) {
    let mut app = App::new();
    app.set_managers(vec![manager("brew"), manager("npm"), manager("pip")], true);
    app.select_next_manager();
    let request = app.schedule_load_packages();
    app.finish_load(
        request,
        "npm",
        Ok(vec![pkg("left-pad", false), pkg("Lodash", true), pkg("react", true)]),
    );
    (app, TaskStore::new())
}

#[test]
fn app_starts_on_the_dashboard() {
    let app = App::new();
    assert_eq!(app.current_view, View::Dashboard);
    assert_eq!(app.input_mode, InputMode::Normal);
    assert_eq!(app.status_message, "正在初始化...");
    assert!(app.should_redraw && !app.should_quit && !app.show_help);
    assert!(app.selected_manager_name().is_none());
    assert!(app.selected_package().is_none());
}

#[test]
fn loading_fills_the_lists() {
    let (app, _) = loaded();
    assert_eq!(app.selected_manager_name(), Some("npm"));
    assert_eq!(app.packages.len(), 3);
    assert_eq!(app.status_message, "Loaded 3 packages");
    assert_eq!(app.managers[1].package_count, 3);
    assert_eq!(app.managers[1].outdated_count, 2);
    assert_eq!(app.managers[0].package_count, 0);
    assert_eq!(app.selected_package().unwrap().name, "left-pad");
}

#[test]
fn answers_that_are_no_longer_wanted_are_dropped() {
    let (mut app, _) = loaded();
    let first = app.schedule_load_packages();
    let second = app.schedule_load_packages();
    assert_eq!(second, first + 1);
    app.finish_load(first, "npm", Ok(vec![]));
    assert_eq!(app.packages.len(), 3);
    app.finish_load(second, "pip", Ok(vec![]));
    assert_eq!(app.packages.len(), 3);
    app.finish_load(second, "npm", Err("boom".to_string()));
    assert_eq!(app.status_message, "Failed to load packages: boom");
    assert_eq!(app.packages.len(), 3);
    app.finish_load(second, "npm", Ok(vec![]));
    assert_eq!(app.status_message, "Loaded 0 packages");
    app.set_managers(vec![manager("brew")], false);
    assert_eq!(app.selected_manager_index, 0);
    assert_eq!(app.status_message, "Loaded 0 packages");
    app.set_managers(vec![], true);
    assert_eq!(app.status_message, "管理器状态已刷新 (本地模式)");
}

#[test]
fn keys_move_the_selection() {
    let (mut app, store) = loaded();
    assert!(app.handle_key_event(key(Key::Char('j')), &store).is_empty());
    assert_eq!(app.selected_package_index, 1);
    app.handle_key_event(key(Key::Down), &store);
    app.handle_key_event(key(Key::Down), &store);
    assert_eq!(app.selected_package_index, 0);
    app.handle_key_event(key(Key::Char('k')), &store);
    assert_eq!(app.selected_package_index, 2);
    let commands = app.handle_key_event(key(Key::Char('l')), &store);
    assert_eq!(app.selected_manager_name(), Some("pip"));
    assert!(matches!(&commands[..], [Command::LoadPackages { request }] if *request == app.load_packages_request_id));
    assert_eq!(app.status_message, "Loading packages...");
    app.handle_key_event(key(Key::Right), &store);
    assert_eq!(app.selected_manager_name(), Some("brew"));
    app.handle_key_event(key(Key::Char('h')), &store);
    assert_eq!(app.selected_manager_name(), Some("pip"));
    let commands = app.handle_key_event(key(Key::Char('r')), &store);
    assert!(matches!(&commands[..], [Command::RefreshManagers]));
    assert!(app.handle_key_event(key(Key::Char('z')), &store).is_empty());
}

#[test]
fn search_filters_as_it_is_typed() {
    let (mut app, store) = loaded();
    app.handle_key_event(key(Key::Char('/')), &store);
    assert_eq!(app.input_mode, InputMode::Search);
    assert_eq!(app.status_message, "Search: type to filter, Enter to apply");
    for c in "LOx".chars() {
        app.handle_key_event(key(Key::Char(c)), &store);
    }
    assert_eq!(app.search_query, "LOx");
    assert!(app.packages.is_empty());
    app.handle_key_event(key(Key::Backspace), &store);
    assert_eq!(app.search_query, "LO");
    assert_eq!(app.packages.len(), 1);
    assert_eq!(app.packages[0].name, "Lodash");
    app.handle_key_event(KeyEvent { key: Key::Char('d'), control: true }, &store);
    assert_eq!(app.search_query, "LO");
    app.handle_key_event(key(Key::Enter), &store);
    assert_eq!(app.input_mode, InputMode::Normal);
    assert_eq!(app.search_query, "LO");
    assert_eq!(app.packages.len(), 1);
    assert_eq!(app.status_message, "Search exited");
    app.handle_key_event(key(Key::Char('/')), &store);
    app.handle_key_event(key(Key::Esc), &store);
    assert_eq!(app.search_query, "");
    assert_eq!(app.packages.len(), 3);
    app.handle_key_event(key(Key::Char('/')), &store);
    app.handle_key_event(key(Key::Backspace), &store);
    assert_eq!(app.search_query, "");
}

#[test]
fn menu_asks_before_it_acts() {
    let (mut app, store) = loaded();
    app.handle_key_event(key(Key::Enter), &store);
    assert_eq!(app.input_mode, InputMode::ActionMenu);
    assert_eq!(app.selected_action_index, 0);
    app.handle_key_event(key(Key::Char('j')), &store);
    assert_eq!(app.selected_action_index, 1);
    app.handle_key_event(key(Key::Char('j')), &store);
    assert_eq!(app.selected_action_index, 0);
    app.handle_key_event(key(Key::Up), &store);
    assert_eq!(app.selected_action_index, 1);
    app.handle_key_event(key(Key::Enter), &store);
    assert_eq!(app.input_mode, InputMode::Normal);
    assert!(matches!(&app.modal, Some(ModalState::Confirm { title, message })
        if title == "Uninstall Package" && message == "Uninstall left-pad from npm?"));
    assert!(app.handle_key_event(key(Key::Char('x')), &store).is_empty());
    assert!(app.modal.is_some());
    let commands = app.handle_key_event(key(Key::Char('y')), &store);
    assert!(app.modal.is_none() && app.pending_action.is_none());
    assert!(matches!(&commands[..], [Command::Perform {
        action: PendingAction::Uninstall { manager, package, force: false }
    }] if manager == "npm" && package == "left-pad"));

    app.handle_key_event(key(Key::Char('u')), &store);
    assert!(matches!(&app.pending_action, Some(PendingAction::Update { .. })));
    assert!(app.handle_key_event(key(Key::Esc), &store).is_empty());
    assert!(app.modal.is_none() && app.pending_action.is_none());

    app.handle_key_event(key(Key::Char('a')), &store);
    app.handle_key_event(key(Key::Esc), &store);
    assert_eq!(app.status_message, "操作菜单已退出");
    let mut empty = App::new();
    empty.handle_key_event(key(Key::Char('a')), &store);
    assert_eq!(empty.input_mode, InputMode::Normal);
    empty.handle_key_event(key(Key::Char('d')), &store);
    assert!(empty.modal.is_none());
}

#[test]
fn views_open_and_close() {
    let (mut app, store) = loaded();
    app.handle_key_event(key(Key::Char('m')), &store);
    assert_eq!(app.current_view, View::ManagerDetail("npm".to_string()));
    let commands = app.handle_key_event(key(Key::Char('r')), &store);
    assert!(matches!(&commands[..], [Command::LoadPackages { .. }]));
    app.open_package_detail();
    assert_eq!(app.current_view, View::PackageDetail("left-pad".to_string()));
    assert!(app.handle_key_event(key(Key::Char('j')), &store).is_empty());
    assert_eq!(app.selected_package_index, 0);
    app.handle_key_event(key(Key::Char('b')), &store);
    assert_eq!(app.current_view, View::ManagerDetail("npm".to_string()));
    app.handle_key_event(key(Key::Esc), &store);
    assert_eq!(app.current_view, View::Dashboard);
    app.handle_key_event(key(Key::Char('?')), &store);
    assert!(app.show_help);
    app.handle_key_event(key(Key::Char('?')), &store);
    assert!(!app.show_help);
    app.handle_key_event(KeyEvent { key: Key::Char('c'), control: true }, &store);
    assert!(app.should_quit);
    let mut other = App::new();
    other.handle_key_event(key(Key::Char('q')), &store);
    assert!(other.should_quit);
}

#[test]
fn scope_changes_for_managers_that_have_scopes() {
    let (mut app, store) = loaded();
    let commands = app.handle_key_event(key(Key::Char('g')), &store);
    assert!(app.global);
    assert_eq!(app.status_message, "切换到 全局 模式");
    assert!(matches!(&commands[..], [Command::RefreshManagers]));
    assert!(app.toggle_global());
    assert_eq!(app.status_message, "切换到 本地 模式");
    app.select_next_manager();
    assert!(!app.toggle_global());
    assert!(app.handle_key_event(key(Key::Char('g')), &store).is_empty());
    assert!(!app.global);
}

#[test]
fn jobs_are_reported() {
    let (mut app, mut store) = loaded();
    assert!(app.handle_key_event(key(Key::Char('c')), &store).is_empty());
    app.handle_key_event(key(Key::Char('L')), &store);
    assert!(app.modal.is_none());
    store.submit_as("job-1".into(), "npm", Operation::Update, "react", "npm", vec!["Started".to_string()], 1).unwrap();
    app.job_started("job-1");
    assert_eq!(app.current_job.as_deref(), Some("job-1"));
    assert_eq!(app.status_message, "Job job-1 running");
    app.job_progress("job-1", 40);
    assert_eq!(app.status_message, "Job job-1 running (40%)");
    app.handle_key_event(key(Key::Char('L')), &store);
    assert!(matches!(&app.modal, Some(ModalState::Logs { title, lines })
        if title == "Job job-1" && lines == &vec!["Started".to_string()]));
    assert!(app.handle_key_event(key(Key::Enter), &store).is_empty());
    assert!(app.modal.is_some());
    app.handle_key_event(key(Key::Esc), &store);
    assert!(app.modal.is_none());
    let commands = app.handle_key_event(key(Key::Char('c')), &store);
    assert!(matches!(&commands[..], [Command::CancelJob { id }] if id == "job-1"));
    app.job_canceled("job-1");
    assert_eq!(app.status_message, "Job job-1 canceled");
    app.job_finished("job-1", "react", Operation::Update, Ok(()));
    assert_eq!(app.status_message, "Job job-1 finished");
    assert!(matches!(&app.modal, Some(ModalState::Success { title, message })
        if title == "任务完成 / Task Completed" && message == "react 已成功更新"));
    app.handle_key_event(key(Key::Other), &store);
    assert!(app.modal.is_none());
    app.job_finished("job-1", "react", Operation::Uninstall, Err("命令超时".to_string()));
    assert!(matches!(&app.modal, Some(ModalState::Error { title, message })
        if title == "任务失败 / Task Failed" && message == "react 卸载失败\n错误: 命令超时"));
}
