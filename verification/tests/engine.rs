use boxy::aggregate::{
    aggregate, annotate_outdated, compile, count_outdated, resolve_manager_names, status_for,
    Answer, Scheduler, SCAN_CONCURRENCY,
};
use boxy::batch::{batch_progress, BatchUpdate, Listing};
use boxy::error::BoxyError;
use boxy::executor::ManagerExecutor;
use boxy::jobs::{JobAction, JobError, TaskStore};
use boxy::package::{JobStatus, Operation, Package};
use boxy::retry::{
    backoff_delay, backoff_factor, Retry, Verdict, DEFAULT_MAX_ATTEMPTS, DEFAULT_RETRY_BASE_DELAY,
    MAX_DELAY,
};

const SECOND: u128 = 1_000_000_000;

fn failure() -> BoxyError {
    BoxyError::CommandFailed { manager: "npm".into(), command: "update b".into(), exit_code: 1 }
}

fn pkg(name: &str, version: &str) -> Package {
    Package::bare(name.to_string(), version.to_string(), "npm".to_string())
}

/// Runs an operation under the policy as a caller does; `outcomes` says which calls succeed.
fn run(max_attempts: u32, base: u128, outcomes: &[bool]) -> (usize, bool, Vec<u128>) {
    let mut retry = Retry::start(max_attempts, base);
    let mut calls = 0;
    let mut slept = Vec::new();
    loop {
        let ok = outcomes.get(calls).copied().unwrap_or(false);
        calls += 1;
        assert_eq!(retry.attempt() as usize, calls);
        if ok {
            return (calls, true, slept);
        }
        match retry.failed() {
            Verdict::GiveUp => return (calls, false, slept),
            Verdict::RetryAfter { delay } => slept.push(delay),
        }
    }
}

#[test]
fn retry_calls_a_failing_operation_three_times() {
    let (calls, ok, slept) = run(3, SECOND, &[]);
    assert_eq!(calls, 3);
    assert!(!ok);
    assert_eq!(slept, vec![SECOND, 2 * SECOND]);
    assert_eq!(slept.iter().sum::<u128>(), 3 * SECOND);
    assert_eq!(DEFAULT_MAX_ATTEMPTS, 3);
    assert_eq!(DEFAULT_RETRY_BASE_DELAY, SECOND);
}

#[test]
fn retry_stops_at_the_first_success() {
    assert_eq!(run(3, SECOND, &[true]), (1, true, vec![]));
    assert_eq!(run(3, SECOND, &[false, true]), (2, true, vec![SECOND]));
    assert_eq!(run(0, SECOND, &[]).0, 1);
    assert_eq!(run(1, SECOND, &[]).0, 1);
    assert_eq!(run(10, 1, &[]).2, vec![1, 2, 4, 8, 16, 32, 32, 32, 32]);
}

#[test]
fn backoff_doubles_up_to_thirty_two() {
    let factors: Vec<u32> = (0..9).map(backoff_factor).collect();
    assert_eq!(factors, vec![1, 1, 2, 4, 8, 16, 32, 32, 32]);
    assert_eq!(backoff_factor(u32::MAX), 32);
    assert_eq!(backoff_delay(SECOND, 3), 4 * SECOND);
    assert_eq!(backoff_delay(0, 3), 0);
    assert_eq!(backoff_delay(MAX_DELAY, 1), MAX_DELAY);
    assert_eq!(backoff_delay(MAX_DELAY, 2), MAX_DELAY);
    assert_eq!(backoff_delay(MAX_DELAY / 2, 2), MAX_DELAY - 1);
    assert_eq!(backoff_delay(u128::MAX, 6), u128::MAX);
    let max = std::time::Duration::MAX;
    assert_eq!(max.as_nanos(), MAX_DELAY);
    assert!(max.checked_mul(2).is_none());
}

#[test]
fn executor_serializes_one_key_and_not_another() {
    let mut executor = ManagerExecutor::new(1, SECOND);
    assert!(executor.try_acquire("npm"));
    assert!(!executor.try_acquire("npm"));
    assert!(executor.try_acquire("pip"));
    assert!(executor.is_held("npm") && executor.is_held("pip"));
    assert!(!executor.is_held("brew"));
    executor.release("npm");
    assert!(!executor.is_held("npm"));
    assert!(executor.is_held("pip"));
    assert!(executor.try_acquire("npm"));
    executor.release("brew");
    executor.release("npm");
    executor.release("npm");
    assert!(executor.try_acquire("npm"));
    let retry = ManagerExecutor::default().retry();
    assert_eq!(retry.attempt(), 1);
}

fn progress_of(store: &TaskStore, id: &str) -> u32 {
    store.get_tasks().iter().find(|j| j.id == id).unwrap().progress.unwrap()
}

#[test]
fn job_runs_from_submission_to_one_terminal_state() {
    let mut store = TaskStore::new();
    let (id, actions) = store.submit("npm", Operation::Install, "left-pad", "npm-global").unwrap();
    assert_eq!(id.len(), 36);
    assert!(matches!(&actions[..], [JobAction::Progress { progress: 0, .. }]));
    let job = &store.get_tasks()[0];
    assert_eq!(job.status, JobStatus::Running);
    assert_eq!(job.progress, Some(0));
    assert_eq!(job.step.as_deref(), Some("started"));
    assert!(job.started_at.is_some() && job.finished_at.is_none());

    let mut last = 0;
    for tick in 1..=12 {
        let actions = store.heartbeat(&id);
        let now = progress_of(&store, &id);
        assert!(now >= last && now <= 90);
        assert_eq!(now, std::cmp::min(tick * 10, 90));
        assert_eq!(actions.len(), if tick <= 9 { 1 } else { 0 });
        last = now;
    }
    assert_eq!(store.get_tasks()[0].step.as_deref(), Some("running"));

    let actions = store.complete(&id, Ok(()));
    assert_eq!(actions.len(), 3);
    assert!(matches!(&actions[0], JobAction::Invalidate { cache_key } if cache_key == "npm-global"));
    assert!(matches!(&actions[1], JobAction::Progress { progress: 100, .. }));
    assert!(matches!(&actions[2], JobAction::Complete { status: JobStatus::Succeeded, manager, .. } if manager == "npm"));
    let job = &store.get_tasks()[0];
    assert_eq!(job.status, JobStatus::Succeeded);
    assert_eq!(job.progress, Some(100));
    assert_eq!(job.step.as_deref(), Some("completed"));
    assert!(job.finished_at.is_some());
    assert_eq!(store.get_task_logs(&id), vec!["Completed"]);

    // A job that has ended stays as it is.
    assert!(store.complete(&id, Err(failure())).is_empty());
    assert!(store.cancel(&id).is_empty());
    assert!(store.heartbeat(&id).is_empty());
    assert_eq!(store.status_of(&id), Some(JobStatus::Succeeded));
    assert_eq!(progress_of(&store, &id), 100);
}

#[test]
fn failed_job_keeps_the_text_of_the_failure() {
    let mut store = TaskStore::new();
    store.submit_as("j1".into(), "npm", Operation::Update, "b", "npm", vec![], 5).unwrap();
    let actions = store.complete_at("j1", Err(BoxyError::CommandTimeout), 9);
    assert!(matches!(&actions[2], JobAction::Complete { status: JobStatus::Failed, .. }));
    let job = &store.get_tasks()[0];
    assert_eq!(job.status, JobStatus::Failed);
    assert_eq!(job.error.as_deref(), Some("命令超时"));
    assert_eq!(job.step.as_deref(), Some("failed"));
    assert_eq!(job.started_at, Some(5));
    assert_eq!(job.finished_at, Some(9));
    assert_eq!(job.progress, Some(100));
    assert_eq!(store.get_task_logs("j1"), vec!["命令超时"]);
}

#[test]
fn cancel_wins_over_a_later_outcome() {
    let mut store = TaskStore::new();
    store.submit_as("j1".into(), "npm", Operation::Uninstall, "a", "npm", vec![], 1).unwrap();
    let actions = store.cancel_at("j1", 2);
    assert!(matches!(&actions[0], JobAction::Abort { id } if id == "j1"));
    assert!(matches!(&actions[3], JobAction::Complete { status: JobStatus::Canceled, .. }));
    assert_eq!(actions.len(), 4);
    assert!(store.complete_at("j1", Ok(()), 3).is_empty());
    let job = &store.get_tasks()[0];
    assert_eq!(job.status, JobStatus::Canceled);
    assert_eq!(job.progress, Some(100));
    assert_eq!(job.step.as_deref(), Some("canceled"));
    assert_eq!(job.finished_at, Some(2));
    assert_eq!(job.logs, vec!["Canceled"]);
    assert!(store.cancel_at("j1", 4).is_empty());
    assert!(store.cancel_at("nobody", 4).is_empty());
}

#[test]
fn delete_and_clear_spare_running_jobs() {
    let mut store = TaskStore::new();
    store.submit_as("a".into(), "npm", Operation::Install, "x", "npm", vec![], 1).unwrap();
    store.submit_as("b".into(), "pip", Operation::Install, "y", "pip", vec![], 1).unwrap();
    store.submit_as("c".into(), "brew", Operation::Install, "z", "brew", vec![], 1).unwrap();
    assert_eq!(
        store.submit_as("a".into(), "npm", Operation::Install, "x", "npm", vec![], 1).unwrap_err(),
        JobError::DuplicateId
    );
    assert_eq!(store.delete("a"), Err(JobError::JobInUse));
    assert_eq!(store.delete("zz"), Err(JobError::NotFound));
    assert_eq!(JobError::JobInUse.message(), "任务运行中，无法删除");
    assert_eq!(JobError::NotFound.message(), "任务不存在");
    store.complete_at("a", Ok(()), 2);
    assert_eq!(store.delete("a"), Ok(()));
    assert_eq!(store.get_tasks().len(), 2);
    assert!(store.get_task_logs("a").is_empty());
    store.cancel_at("b", 3);
    store.append_log("c", "note".to_string());
    store.clear();
    let left = store.get_tasks();
    assert_eq!(left.len(), 1);
    assert_eq!(left[0].id, "c");
    assert_eq!(left[0].status, JobStatus::Running);
    assert_eq!(store.get_task_logs("c"), vec!["note"]);
}

#[test]
fn batch_stops_at_the_first_failure() {
    let mut store = TaskStore::new();
    let (id, _) = BatchUpdate::begin(&mut store, "npm", "npm-global").unwrap();
    assert_eq!(store.get_tasks()[0].target, "outdated");
    assert_eq!(store.get_tasks()[0].logs, vec!["开始批量更新过时包"]);
    let list = vec![pkg("A", "1"), pkg("B", "1"), pkg("C", "1")];
    let (mut batch, actions) = BatchUpdate::plan(&mut store, &id, Listing::Listed(list), 10);
    assert!(actions.is_empty());

    let mut attempted = Vec::new();
    while let Some(name) = batch.next_package() {
        let name = name.to_string();
        let outcome = if name == "B" { Err(failure()) } else { Ok(()) };
        attempted.push(name);
        batch.record(&mut store, outcome, 11);
    }
    assert_eq!(attempted, vec!["A", "B"]);
    assert!(!batch.is_open());
    assert!(batch.next_package().is_none());
    assert!(batch.record(&mut store, Ok(()), 12).is_empty());

    let job = &store.get_tasks()[0];
    assert_eq!(job.status, JobStatus::Failed);
    assert_eq!(job.error.as_deref(), Some("批量更新失败"));
    assert_eq!(job.progress, Some(100));
    assert_eq!(job.logs.len(), 3);
    assert_eq!(job.logs[1], "更新 A 成功");
    assert!(job.logs[2].starts_with("更新 B 失败: "));
}

#[test]
fn batch_updates_every_package_and_succeeds() {
    let mut store = TaskStore::new();
    store.submit_as("b1".into(), "pip", Operation::Update, "outdated", "pip", vec![], 0).unwrap();
    let list = vec![pkg("A", "1"), pkg("B", "1"), pkg("C", "1"), pkg("D", "1")];
    let (mut batch, _) = BatchUpdate::plan(&mut store, "b1", Listing::Listed(list), 1);
    let mut seen = Vec::new();
    while batch.is_open() {
        let actions = batch.record(&mut store, Ok(()), 2);
        seen.push(actions.len());
        if batch.is_open() {
            seen.push(store.get_tasks()[0].progress.unwrap() as usize);
        }
    }
    assert_eq!(seen, vec![1, 30, 1, 50, 1, 70, 4]);
    assert_eq!(store.status_of("b1"), Some(JobStatus::Succeeded));
    assert_eq!(batch_progress(0, 3), 36);
    assert_eq!(batch_progress(1, 3), 63);
    assert_eq!(batch_progress(2, 3), 90);
    assert_eq!(batch_progress(0, 1), 90);
    assert_eq!(batch_progress(0, usize::MAX), 10);
    assert_eq!(batch_progress(usize::MAX, 1), 90);
}

#[test]
fn batch_ends_at_once_without_a_list() {
    let mut store = TaskStore::new();
    for id in ["u", "f", "e"] {
        store.submit_as(id.into(), "mas", Operation::Update, "outdated", "mas", vec![], 0).unwrap();
    }
    let (batch, actions) = BatchUpdate::plan(&mut store, "u", Listing::UnknownManager, 1);
    assert!(!batch.is_open());
    assert_eq!(actions.len(), 3);
    let (batch, _) = BatchUpdate::plan(&mut store, "f", Listing::Failed(BoxyError::CommandTimeout), 1);
    assert!(batch.next_package().is_none());
    let (batch, _) = BatchUpdate::plan(&mut store, "e", Listing::Listed(vec![]), 1);
    assert!(!batch.is_open());
    let jobs = store.get_tasks();
    assert_eq!(jobs[0].status, JobStatus::Failed);
    assert_eq!(jobs[0].error.as_deref(), Some("unknown manager"));
    assert_eq!(jobs[0].logs, vec!["未知的包管理器"]);
    assert_eq!(jobs[1].status, JobStatus::Failed);
    assert_eq!(jobs[1].error.as_deref(), Some("命令超时"));
    assert_eq!(jobs[1].logs, vec!["检查过时包失败: 命令超时"]);
    assert_eq!(jobs[2].status, JobStatus::Succeeded);
    assert_eq!(jobs[2].logs, vec!["没有可更新的包"]);
    assert!(jobs[2].error.is_none());
}

#[test]
fn aggregate_keeps_the_others_when_one_times_out() {
    let asked = vec![
        ("brew".to_string(), Answer::Packages(vec![pkg("jq", "1.7")])),
        ("npm".to_string(), Answer::TimedOut),
        ("pip".to_string(), Answer::Packages(vec![pkg("requests", "2"), pkg("urllib3", "2")])),
    ];
    let results = aggregate(asked);
    assert_eq!(results.len(), 3);
    assert_eq!(results[0].manager, "brew");
    assert_eq!(results[0].packages.len(), 1);
    assert!(results[0].error.is_none());
    assert_eq!(results[1].manager, "npm");
    assert!(results[1].packages.is_empty());
    assert!(matches!(results[1].error, Some(BoxyError::CommandTimeout)));
    assert_eq!(results[2].packages.len(), 2);
    let all: Vec<String> = compile(&results).into_iter().map(|p| p.name).collect();
    assert_eq!(all, vec!["jq", "requests", "urllib3"]);

    let results = aggregate(vec![
        ("mas".to_string(), Answer::Unavailable),
        ("uv".to_string(), Answer::Failed(failure())),
    ]);
    assert!(aggregate(vec![]).is_empty());
    assert!(!results[0].available && results[0].error.is_none());
    assert!(results[1].available && results[1].packages.is_empty());
    assert!(matches!(results[1].error, Some(BoxyError::CommandFailed { exit_code: 1, .. })));
}

#[test]
fn queries_go_to_one_manager_or_to_all() {
    assert_eq!(resolve_manager_names(Some("npm")), vec!["npm"]);
    assert_eq!(
        resolve_manager_names(None),
        vec!["brew", "npm", "pnpm", "yarn", "bun", "pip", "pipx", "uv", "cargo", "mas"]
    );
}

#[test]
fn fan_out_never_exceeds_its_width() {
    assert_eq!(SCAN_CONCURRENCY, 5);
    let mut s = Scheduler::new(SCAN_CONCURRENCY, 10);
    let mut started = Vec::new();
    while let Some(i) = s.start_next() {
        started.push(i);
    }
    assert_eq!(started, vec![0, 1, 2, 3, 4]);
    assert_eq!(s.in_flight(), 5);
    assert!(s.start_next().is_none());
    s.finish_one();
    assert_eq!(s.start_next(), Some(5));
    assert!(s.start_next().is_none());
    for _ in 0..5 {
        s.finish_one();
        s.start_next();
    }
    assert_eq!(s.in_flight(), 4);
    assert!(s.start_next().is_none());
    for _ in 0..6 {
        s.finish_one();
    }
    assert!(s.is_done());
    assert_eq!(s.in_flight(), 0);
    let mut none = Scheduler::new(0, 1);
    assert!(none.start_next().is_none());
    assert!(!none.is_done());
    none.finish_one();
    assert_eq!(none.in_flight(), 0);
    assert!(Scheduler::new(3, 0).is_done());
}

#[test]
fn outdated_list_marks_installed_packages() {
    let installed = vec![pkg("a", "1"), pkg("b", "1"), pkg("c", "1")];
    let mut o1 = pkg("b", "1");
    o1.latest_version = Some("2".into());
    let mut o2 = pkg("c", "1");
    o2.latest_version = Some("3".into());
    let mut o3 = pkg("c", "1");
    o3.latest_version = None;
    let merged = annotate_outdated(installed, &vec![o1, o2, o3]);
    assert!(!merged[0].outdated && merged[0].latest_version.is_none());
    assert!(merged[1].outdated);
    assert_eq!(merged[1].latest_version.as_deref(), Some("2"));
    assert!(merged[2].outdated);
    assert!(merged[2].latest_version.is_none());
    assert_eq!(count_outdated(&merged), 2);
    let status = status_for("npm", true, &merged);
    assert_eq!(status.name, "npm");
    assert_eq!(status.version, "");
    assert!(status.available);
    assert_eq!(status.package_count, 3);
    assert_eq!(status.outdated_count, 2);
}

#[test]
fn only_the_three_closing_states_are_terminal() {
    assert!(JobStatus::Succeeded.is_terminal());
    assert!(JobStatus::Failed.is_terminal());
    assert!(JobStatus::Canceled.is_terminal());
    assert!(!JobStatus::Pending.is_terminal());
    assert!(!JobStatus::Running.is_terminal());
}
