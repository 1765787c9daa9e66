//! The job store: every long-running operation is a job that starts
//! `Running` and ends in exactly one of `Succeeded`, `Failed` and
//! `Canceled`.
//!
//! The store keeps the records and says what is to be done; running the
//! operation, the heartbeat and the events are left to the caller.

use vstd::prelude::*;
use crate::clock::now_millis;
use crate::error::BoxyError;
use crate::package::{job_views, Job, JobStatus, JobView, Operation};
use crate::text::{copy_opt, copy_str, copy_strings, opt_view, same_text, views_of};

verus! {

/// Something for the caller to do after a change of the store.
#[derive(Debug)]
pub enum JobAction {
    /// Stop the background task of the job.
    Abort { id: String },
    /// Drop the cache entry under the key.
    Invalidate { cache_key: String },
    /// Publish the progress of the job.
    Progress { task_id: String, progress: u32 },
    /// Publish that the job has ended.
    Complete { id: String, status: JobStatus, manager: String },
}

/// What a `JobAction` holds, as plain values.
pub enum ActionView {
    Abort { id: Seq<char> },
    Invalidate { cache_key: Seq<char> },
    Progress { task_id: Seq<char>, progress: u32 },
    Complete { id: Seq<char>, status: JobStatus, manager: Seq<char> },
}

impl View for JobAction {
    type V = ActionView;

    open spec fn view(&self) -> ActionView {
        match self {
            JobAction::Abort { id } => ActionView::Abort { id: id@ },
            JobAction::Invalidate { cache_key } => ActionView::Invalidate { cache_key: cache_key@ },
            JobAction::Progress { task_id, progress } => ActionView::Progress {
                task_id: task_id@,
                progress: *progress,
            },
            JobAction::Complete { id, status, manager } => ActionView::Complete {
                id: id@,
                status: *status,
                manager: manager@,
            },
        }
    }
}

/// The views of a sequence of actions.
pub open spec fn action_views(s: Seq<JobAction>) -> Seq<ActionView> {
    s.map_values(|a: JobAction| a@)
}

/// Why the store refused a request.
#[derive(Debug, Clone, Copy, PartialEq, Eq, Structural)]
pub enum JobError {
    /// The job is still running.
    JobInUse,
    /// There is no job with that id.
    NotFound,
    /// There is a job with that id already.
    DuplicateId,
}

impl JobError {
    /// The text shown for the refusal.
    pub open spec fn description(self) -> Seq<char> {
        match self {
            JobError::JobInUse => "任务运行中，无法删除"@,
            JobError::NotFound => "任务不存在"@,
            JobError::DuplicateId => "任务已存在"@,
        }
    }

    /// The text shown for the refusal.
    pub fn message(&self) -> (r: String)
        ensures
            r@ == self.description(),
    {
        match self {
            JobError::JobInUse => copy_str("任务运行中，无法删除"),
            JobError::NotFound => copy_str("任务不存在"),
            JobError::DuplicateId => copy_str("任务已存在"),
        }
    }
}

struct TaskEntry {
    job: Job,
    cache_key: String,
    attached: bool,
}

/// One job of the store as plain values: the record, the key of the cache
/// entry that the job makes stale, and whether a background task is
/// attached to it.
pub struct EntryView {
    pub job: JobView,
    pub cache_key: Seq<char>,
    pub attached: bool,
}

impl View for TaskEntry {
    type V = EntryView;

    closed spec fn view(&self) -> EntryView {
        EntryView { job: self.job@, cache_key: self.cache_key@, attached: self.attached }
    }
}

/// The index of the first job of `s` with the id `id`.
pub open spec fn position(s: Seq<EntryView>, id: Seq<char>) -> Option<int>
    decreases s.len(),
{
    if s.len() == 0 {
        None
    } else if s[0].job.id == id {
        Some(0)
    } else {
        match position(s.skip(1), id) {
            Some(i) => Some(i + 1),
            None => None,
        }
    }
}

/// What `position` finds: the first job with that id, or that there is none.
pub proof fn lemma_position(s: Seq<EntryView>, id: Seq<char>)
    ensures
        match position(s, id) {
            Some(i) => 0 <= i < s.len() && s[i].job.id == id && forall|j: int|
                0 <= j < i ==> s[j].job.id != id,
            None => forall|j: int| 0 <= j < s.len() ==> s[j].job.id != id,
        },
    decreases s.len(),
{
    if s.len() > 0 && s[0].job.id != id {
        lemma_position(s.skip(1), id);
        match position(s.skip(1), id) {
            Some(i) => {
                assert(s.skip(1)[i] == s[i + 1]);
                assert forall|j: int| 0 <= j < i + 1 implies s[j].job.id != id by {
                    if j > 0 {
                        assert(s.skip(1)[j - 1] == s[j]);
                    }
                }
            },
            None => {
                assert forall|j: int| 0 <= j < s.len() implies s[j].job.id != id by {
                    if j > 0 {
                        assert(s.skip(1)[j - 1] == s[j]);
                    }
                }
            },
        }
    }
}

/// Whether the job is running.
pub open spec fn running(j: JobView) -> bool {
    j.status == JobStatus::Running
}

/// The step that a job shows once it has ended with `status`.
pub open spec fn step_for(status: JobStatus) -> Seq<char> {
    match status {
        JobStatus::Succeeded => "completed"@,
        JobStatus::Canceled => "canceled"@,
        _ => "failed"@,
    }
}

/// The job as it is submitted: running, nothing done yet.
pub open spec fn started_job(
    id: Seq<char>,
    manager: Seq<char>,
    operation: Operation,
    target: Seq<char>,
    logs: Seq<Seq<char>>,
    now: i64,
) -> JobView {
    JobView {
        id,
        manager,
        operation,
        target,
        status: JobStatus::Running,
        progress: Some(0),
        step: Some("started"@),
        started_at: Some(now),
        finished_at: None,
        logs,
        error: None,
    }
}

/// The progress after one heartbeat: ten more, but never past 90.
pub open spec fn next_progress(p: u32) -> u32 {
    if p >= 90 {
        p
    } else if p + 10 < 90 {
        (p + 10) as u32
    } else {
        90
    }
}

/// The job after a heartbeat. Only a running job below 90 moves.
pub open spec fn ticked(j: JobView) -> JobView {
    match j.progress {
        Some(p) if running(j) && p < 90 => JobView {
            progress: Some(next_progress(p)),
            step: Some("running"@),
            ..j
        },
        _ => j,
    }
}

/// The job after a step of its work brought it to `progress`, with a line
/// for its log. Only a running job moves.
pub open spec fn advanced(j: JobView, progress: u32, line: Seq<char>) -> JobView {
    if running(j) {
        JobView { progress: Some(progress), step: Some("running"@), logs: j.logs.push(line), ..j }
    } else {
        j
    }
}

/// The job with one more line in its log.
pub open spec fn logged(j: JobView, line: Seq<char>) -> JobView {
    JobView { logs: j.logs.push(line), ..j }
}

/// The job after it ended with `status`. A job that has ended before stays
/// as it is.
pub open spec fn closed_job(
    j: JobView,
    status: JobStatus,
    error: Option<Seq<char>>,
    line: Option<Seq<char>>,
    now: i64,
) -> JobView {
    if running(j) {
        JobView {
            status,
            finished_at: Some(now),
            error,
            progress: Some(100),
            step: Some(step_for(status)),
            logs: match line {
                Some(l) => j.logs.push(l),
                None => j.logs,
            },
            ..j
        }
    } else {
        j
    }
}

/// The entry after its job ended with `status`: no background task is
/// attached any more.
pub open spec fn closed_entry(
    e: EntryView,
    status: JobStatus,
    error: Option<Seq<char>>,
    line: Option<Seq<char>>,
    now: i64,
) -> EntryView {
    EntryView { job: closed_job(e.job, status, error, line, now), attached: false, ..e }
}

/// What is to be done after the job of `e` was asked to end with `status`:
/// nothing where it had ended before.
pub open spec fn closing_actions(e: EntryView, status: JobStatus) -> Seq<ActionView> {
    if running(e.job) {
        seq![
            ActionView::Invalidate { cache_key: e.cache_key },
            ActionView::Progress { task_id: e.job.id, progress: 100 },
            ActionView::Complete { id: e.job.id, status, manager: e.job.manager },
        ]
    } else {
        Seq::empty()
    }
}

/// The store after the job `id` ended with `status`.
pub open spec fn after_close(
    s: Seq<EntryView>,
    id: Seq<char>,
    status: JobStatus,
    error: Option<Seq<char>>,
    line: Option<Seq<char>>,
    now: i64,
) -> Seq<EntryView> {
    match position(s, id) {
        Some(i) => s.update(i, closed_entry(s[i], status, error, line, now)),
        None => s,
    }
}

/// What is to be done after the job `id` was asked to end with `status`.
pub open spec fn close_actions(s: Seq<EntryView>, id: Seq<char>, status: JobStatus) -> Seq<
    ActionView,
> {
    match position(s, id) {
        Some(i) => closing_actions(s[i], status),
        None => Seq::empty(),
    }
}

/// The store after a heartbeat of the job `id`.
pub open spec fn after_tick(s: Seq<EntryView>, id: Seq<char>) -> Seq<EntryView> {
    match position(s, id) {
        Some(i) => s.update(i, EntryView { job: ticked(s[i].job), ..s[i] }),
        None => s,
    }
}

/// What is to be done after a heartbeat of the job `id`: publish the
/// progress where it moved.
pub open spec fn tick_actions(s: Seq<EntryView>, id: Seq<char>) -> Seq<ActionView> {
    match position(s, id) {
        Some(i) => match s[i].job.progress {
            Some(p) if running(s[i].job) && p < 90 => seq![
                ActionView::Progress { task_id: id, progress: next_progress(p) },
            ],
            _ => Seq::empty(),
        },
        None => Seq::empty(),
    }
}

/// The store after a step of the job `id`.
pub open spec fn after_advance(s: Seq<EntryView>, id: Seq<char>, progress: u32, line: Seq<char>)
    -> Seq<EntryView> {
    match position(s, id) {
        Some(i) => s.update(i, EntryView { job: advanced(s[i].job, progress, line), ..s[i] }),
        None => s,
    }
}

/// The store after a line was added to the log of the job `id`.
pub open spec fn after_log(s: Seq<EntryView>, id: Seq<char>, line: Seq<char>) -> Seq<EntryView> {
    match position(s, id) {
        Some(i) => s.update(i, EntryView { job: logged(s[i].job, line), ..s[i] }),
        None => s,
    }
}

/// What is to be done after the job `id` was canceled: stop its task where
/// one is attached, then what follows the end of a job.
pub open spec fn cancel_actions(s: Seq<EntryView>, id: Seq<char>) -> Seq<ActionView> {
    match position(s, id) {
        Some(i) => (if s[i].attached {
            seq![ActionView::Abort { id: s[i].job.id }]
        } else {
            Seq::empty()
        }) + closing_actions(s[i], JobStatus::Canceled),
        None => Seq::empty(),
    }
}

/// The store after the job `id` was canceled.
pub open spec fn after_cancel(s: Seq<EntryView>, id: Seq<char>, now: i64) -> Seq<EntryView> {
    match position(s, id) {
        Some(i) => s.update(
            i,
            closed_entry(s[i], JobStatus::Canceled, s[i].job.error, Some("Canceled"@), now),
        ),
        None => s,
    }
}

/// Why the job `id` cannot be deleted, if it cannot.
pub open spec fn delete_refusal(s: Seq<EntryView>, id: Seq<char>) -> Option<JobError> {
    match position(s, id) {
        Some(i) => if running(s[i].job) {
            Some(JobError::JobInUse)
        } else {
            None
        },
        None => Some(JobError::NotFound),
    }
}

/// The store after the job `id` was deleted.
pub open spec fn after_delete(s: Seq<EntryView>, id: Seq<char>) -> Seq<EntryView> {
    match position(s, id) {
        Some(i) => if running(s[i].job) {
            s
        } else {
            s.remove(i)
        },
        None => s,
    }
}

/// The running jobs among the first `n` of `s`, in order.
pub open spec fn running_of(s: Seq<EntryView>, n: int) -> Seq<EntryView>
    decreases n,
{
    if n <= 0 {
        Seq::empty()
    } else if running(s[n - 1].job) {
        running_of(s, n - 1).push(s[n - 1])
    } else {
        running_of(s, n - 1)
    }
}

/// The store after all jobs that have ended were cleared away.
pub open spec fn after_clear(s: Seq<EntryView>) -> Seq<EntryView> {
    running_of(s, s.len() as int)
}

/// The records of the jobs of `s`, in order.
pub open spec fn jobs_of(s: Seq<EntryView>) -> Seq<JobView> {
    s.map_values(|e: EntryView| e.job)
}

/// How often the task of a job reports that it is alive, in milliseconds.
pub const HEARTBEAT_MS: u64 = 1_000;

/// The store of jobs.
pub struct TaskStore {
    entries: Vec<TaskEntry>,
}

/// A new id for a job, from `uuid::Uuid::new_v4()`, written in the
/// hyphenated form. Nothing is claimed of the value: it is random.
#[verifier::external_body]
pub(crate) fn fresh_id() -> String {
    uuid::Uuid::new_v4().to_string()
}

impl View for TaskStore {
    type V = Seq<EntryView>;

    closed spec fn view(&self) -> Seq<EntryView> {
        self.entries@.map_values(|e: TaskEntry| e@)
    }
}

impl TaskStore {
    /// A store without jobs.
    pub fn new() -> (s: TaskStore)
        ensures
            s@ == Seq::<EntryView>::empty(),
    {
        let s = TaskStore { entries: Vec::new() };
        assert(s@ =~= Seq::<EntryView>::empty());
        s
    }

    /// The index of the first job with the id `id`.
    fn index_of(&self, id: &str) -> (r: Option<usize>)
        ensures
            match r {
                Some(i) => position(self@, id@) == Some(i as int) && i < self.entries@.len(),
                None => position(self@, id@) is None,
            },
    {
        let ghost s = self@;
        let mut i: usize = 0;
        assert(s.skip(0) == s);
        while i < self.entries.len()
            invariant
                i <= self.entries.len(),
                s == self@,
                s.len() == self.entries@.len(),
                position(s, id@) == match position(s.skip(i as int), id@) {
                    Some(k) => Some(k + i),
                    None => None,
                },
            decreases self.entries.len() - i,
        {
            assert(s.skip(i as int).skip(1) == s.skip(i + 1));
            assert(s.skip(i as int)[0] == s[i as int]);
            assert(s[i as int] == self.entries@[i as int]@);
            if same_text(self.entries[i].job.id.as_str(), id) {
                return Some(i);
            }
            i = i + 1;
        }
        assert(s.skip(i as int).len() == 0);
        None
    }

    /// Puts `entry` in the place of the entry at `i`.
    fn put(&mut self, i: usize, entry: TaskEntry)
        requires
            i < old(self)@.len(),
        ensures
            final(self)@ == old(self)@.update(i as int, entry@),
    {
        self.entries.set(i, entry);
        assert(self@ =~= old(self)@.update(i as int, entry@));
    }

    /// Submits a job under the id `id` at the time `now`. The job runs from
    /// the start, with `logs` as the first lines of its log, and a
    /// background task counts as attached to it. An id that is in use is
    /// refused.
    pub fn submit_as(
        &mut self,
        id: String,
        manager: &str,
        operation: Operation,
        target: &str,
        cache_key: &str,
        logs: Vec<String>,
        now: i64,
    ) -> (r: Result<Vec<JobAction>, JobError>)
        ensures
            match position(old(self)@, id@) {
                Some(_) => r == Err::<Vec<JobAction>, JobError>(JobError::DuplicateId)
                    && final(self)@ == old(self)@,
                None => r matches Ok(actions) && action_views(actions@) == seq![
                    ActionView::Progress { task_id: id@, progress: 0 },
                ] && final(self)@ == old(self)@.push(
                    EntryView {
                        job: started_job(
                            id@,
                            manager@,
                            operation,
                            target@,
                            views_of(logs@),
                            now,
                        ),
                        cache_key: cache_key@,
                        attached: true,
                    },
                ),
            },
    {
        if self.index_of(id.as_str()).is_some() {
            return Err(JobError::DuplicateId);
        }
        let job = Job {
            id: id.clone(),
            manager: copy_str(manager),
            operation,
            target: copy_str(target),
            status: JobStatus::Running,
            progress: Some(0),
            step: Some(copy_str("started")),
            started_at: Some(now),
            finished_at: None,
            logs,
            error: None,
        };
        let entry = TaskEntry { job, cache_key: copy_str(cache_key), attached: true };
        let ghost before = self@;
        self.entries.push(entry);
        assert(self@ =~= before.push(entry@));
        let mut actions: Vec<JobAction> = Vec::new();
        actions.push(JobAction::Progress { task_id: id, progress: 0 });
        assert(action_views(actions@) =~= seq![ActionView::Progress { task_id: id@, progress: 0 }]);
        Ok(actions)
    }

    /// Submits a job now under a new id, and hands out the id. The id is
    /// random; the one chance in very many that it is in use is refused.
    pub fn submit(&mut self, manager: &str, operation: Operation, target: &str, cache_key: &str)
        -> (r: Result<(String, Vec<JobAction>), JobError>)
        ensures
            match r {
                Ok((id, actions)) => position(old(self)@, id@) is None && action_views(actions@)
                    == seq![ActionView::Progress { task_id: id@, progress: 0 }] && exists|
                    now: i64,
                |
                    final(self)@ == old(self)@.push(
                        EntryView {
                            job: #[trigger] started_job(
                                id@,
                                manager@,
                                operation,
                                target@,
                                Seq::empty(),
                                now,
                            ),
                            cache_key: cache_key@,
                            attached: true,
                        },
                    ),
                Err(e) => e == JobError::DuplicateId && final(self)@ == old(self)@,
            },
    {
        let id = fresh_id();
        let now = now_millis();
        let logs: Vec<String> = Vec::new();
        assert(views_of(logs@) =~= Seq::<Seq<char>>::empty());
        match self.submit_as(id.clone(), manager, operation, target, cache_key, logs, now) {
            Ok(actions) => Ok((id, actions)),
            Err(e) => Err(e),
        }
    }

    /// A heartbeat of the job `id`: a running job below 90 moves ten up,
    /// but not past 90.
    pub fn heartbeat(&mut self, id: &str) -> (actions: Vec<JobAction>)
        ensures
            final(self)@ == after_tick(old(self)@, id@),
            action_views(actions@) == tick_actions(old(self)@, id@),
    {
        let mut actions: Vec<JobAction> = Vec::new();
        match self.index_of(id) {
            Some(i) => {
                let e = &self.entries[i];
                assert(e@ == self@[i as int]);
                let mut job = e.job.copy();
                let cache_key = e.cache_key.clone();
                let attached = e.attached;
                match job.progress {
                    Some(p) => {
                        if job.status == JobStatus::Running && p < 90 {
                            let q: u32 = if p + 10 < 90 {
                                p + 10
                            } else {
                                90
                            };
                            job.progress = Some(q);
                            job.step = Some(copy_str("running"));
                            actions.push(
                                JobAction::Progress { task_id: copy_str(id), progress: q },
                            );
                        }
                    },
                    None => {},
                }
                self.put(i, TaskEntry { job, cache_key, attached });
                assert(self@ =~= after_tick(old(self)@, id@));
                assert(action_views(actions@) =~= tick_actions(old(self)@, id@));
            },
            None => {
                assert(action_views(actions@) =~= tick_actions(old(self)@, id@));
            },
        }
        actions
    }

    /// Records a step of the job `id`: the progress it has reached and a
    /// line for its log. A job that has ended stays as it is.
    pub(crate) fn advance(&mut self, id: &str, progress: u32, line: String)
        ensures
            final(self)@ == after_advance(old(self)@, id@, progress, line@),
    {
        match self.index_of(id) {
            Some(i) => {
                let e = &self.entries[i];
                assert(e@ == self@[i as int]);
                let mut job = e.job.copy();
                let cache_key = e.cache_key.clone();
                let attached = e.attached;
                if job.status == JobStatus::Running {
                    job.progress = Some(progress);
                    job.step = Some(copy_str("running"));
                    let ghost before = views_of(job.logs@);
                    job.logs.push(line);
                    assert(views_of(job.logs@) =~= before.push(line@));
                }
                self.put(i, TaskEntry { job, cache_key, attached });
                assert(self@ =~= after_advance(old(self)@, id@, progress, line@));
            },
            None => {},
        }
    }

    /// Adds a line to the log of the job `id`, whether it runs or has ended.
    pub fn append_log(&mut self, id: &str, line: String)
        ensures
            final(self)@ == after_log(old(self)@, id@, line@),
    {
        match self.index_of(id) {
            Some(i) => {
                let e = &self.entries[i];
                assert(e@ == self@[i as int]);
                let mut job = e.job.copy();
                let cache_key = e.cache_key.clone();
                let attached = e.attached;
                let ghost before = views_of(job.logs@);
                job.logs.push(line);
                assert(views_of(job.logs@) =~= before.push(line@));
                self.put(i, TaskEntry { job, cache_key, attached });
                assert(self@ =~= after_log(old(self)@, id@, line@));
            },
            None => {},
        }
    }

    /// Ends the job `id` with `status` at the time `now`. A job that has
    /// ended before stays as it is, and nothing is to be done for it.
    pub(crate) fn close(
        &mut self,
        id: &str,
        status: JobStatus,
        error: Option<String>,
        line: Option<String>,
        now: i64,
    ) -> (actions: Vec<JobAction>)
        requires
            status.terminal(),
        ensures
            final(self)@ == after_close(
                old(self)@,
                id@,
                status,
                opt_view(error),
                opt_view(line),
                now,
            ),
            action_views(actions@) == close_actions(old(self)@, id@, status),
    {
        let mut actions: Vec<JobAction> = Vec::new();
        match self.index_of(id) {
            Some(i) => {
                let e = &self.entries[i];
                assert(e@ == self@[i as int]);
                let mut job = e.job.copy();
                let cache_key = e.cache_key.clone();
                if job.status == JobStatus::Running {
                    actions.push(JobAction::Invalidate { cache_key: cache_key.clone() });
                    actions.push(JobAction::Progress { task_id: job.id.clone(), progress: 100 });
                    actions.push(
                        JobAction::Complete {
                            id: job.id.clone(),
                            status,
                            manager: job.manager.clone(),
                        },
                    );
                    job.status = status;
                    job.finished_at = Some(now);
                    job.error = error;
                    job.progress = Some(100);
                    job.step = Some(
                        match status {
                            JobStatus::Succeeded => copy_str("completed"),
                            JobStatus::Canceled => copy_str("canceled"),
                            _ => copy_str("failed"),
                        },
                    );
                    match line {
                        Some(l) => {
                            let ghost before = views_of(job.logs@);
                            job.logs.push(l);
                            assert(views_of(job.logs@) =~= before.push(l@));
                        },
                        None => {},
                    }
                }
                self.put(i, TaskEntry { job, cache_key, attached: false });
                assert(self@ =~= after_close(
                    old(self)@,
                    id@,
                    status,
                    opt_view(error),
                    opt_view(line),
                    now,
                ));
                assert(action_views(actions@) =~= close_actions(old(self)@, id@, status));
            },
            None => {
                assert(action_views(actions@) =~= close_actions(old(self)@, id@, status));
            },
        }
        actions
    }

    /// Ends the job `id` at the time `now` with the outcome of its
    /// operation: `Succeeded`, or `Failed` with the text of the failure.
    pub fn complete_at(&mut self, id: &str, outcome: Result<(), BoxyError>, now: i64) -> (actions:
        Vec<JobAction>)
        ensures
            match outcome {
                Ok(_) => final(self)@ == after_close(
                    old(self)@,
                    id@,
                    JobStatus::Succeeded,
                    None,
                    Some("Completed"@),
                    now,
                ) && action_views(actions@) == close_actions(
                    old(self)@,
                    id@,
                    JobStatus::Succeeded,
                ),
                Err(e) => final(self)@ == after_close(
                    old(self)@,
                    id@,
                    JobStatus::Failed,
                    Some(e.description()),
                    Some(e.description()),
                    now,
                ) && action_views(actions@) == close_actions(old(self)@, id@, JobStatus::Failed),
            },
    {
        match outcome {
            Ok(_) => self.close(id, JobStatus::Succeeded, None, Some(copy_str("Completed")), now),
            Err(e) => {
                let text = e.message();
                self.close(id, JobStatus::Failed, Some(text.clone()), Some(text), now)
            },
        }
    }

    /// Ends the job `id` now with the outcome of its operation.
    pub fn complete(&mut self, id: &str, outcome: Result<(), BoxyError>) -> (actions: Vec<
        JobAction,
    >)
        ensures
            exists|now: i64| #[trigger]
                completed_at(old(self)@, final(self)@, id@, outcome, now),
            action_views(actions@) == close_actions(
                old(self)@,
                id@,
                if outcome is Ok {
                    JobStatus::Succeeded
                } else {
                    JobStatus::Failed
                },
            ),
    {
        let now = now_millis();
        let actions = self.complete_at(id, outcome, now);
        assert(completed_at(old(self)@, self@, id@, outcome, now));
        actions
    }

    /// Cancels the job `id` at the time `now`: a running job ends as
    /// `Canceled`, whatever its task does later. A job that has ended stays
    /// as it is.
    pub fn cancel_at(&mut self, id: &str, now: i64) -> (actions: Vec<JobAction>)
        ensures
            final(self)@ == after_cancel(old(self)@, id@, now),
            action_views(actions@) == cancel_actions(old(self)@, id@),
    {
        let mut actions: Vec<JobAction> = Vec::new();
        match self.index_of(id) {
            Some(i) => {
                let e = &self.entries[i];
                assert(e@ == self@[i as int]);
                if e.attached {
                    actions.push(JobAction::Abort { id: e.job.id.clone() });
                }
                let error = copy_opt(&e.job.error);
                let ghost first = action_views(actions@);
                let mut rest = self.close(
                    id,
                    JobStatus::Canceled,
                    error,
                    Some(copy_str("Canceled")),
                    now,
                );
                let ghost second = action_views(rest@);
                actions.append(&mut rest);
                assert(action_views(actions@) =~= first + second);
                assert(action_views(actions@) =~= cancel_actions(old(self)@, id@));
            },
            None => {
                assert(action_views(actions@) =~= cancel_actions(old(self)@, id@));
            },
        }
        actions
    }

    /// Cancels the job `id` now.
    pub fn cancel(&mut self, id: &str) -> (actions: Vec<JobAction>)
        ensures
            exists|now: i64| final(self)@ == #[trigger] after_cancel(old(self)@, id@, now),
            action_views(actions@) == cancel_actions(old(self)@, id@),
    {
        let now = now_millis();
        self.cancel_at(id, now)
    }

    /// Deletes the job `id` with its log. A running job is not deleted.
    pub fn delete(&mut self, id: &str) -> (r: Result<(), JobError>)
        ensures
            match delete_refusal(old(self)@, id@) {
                Some(e) => r == Err::<(), JobError>(e) && final(self)@ == old(self)@,
                None => r is Ok && final(self)@ == after_delete(old(self)@, id@),
            },
    {
        match self.index_of(id) {
            Some(i) => {
                assert(self.entries@[i as int]@ == self@[i as int]);
                if self.entries[i].job.status == JobStatus::Running {
                    Err(JobError::JobInUse)
                } else {
                    self.entries.remove(i);
                    assert(self@ =~= old(self)@.remove(i as int));
                    Ok(())
                }
            },
            None => Err(JobError::NotFound),
        }
    }

    /// Clears away all jobs that have ended. Running jobs stay, with their
    /// logs and their tasks.
    pub fn clear(&mut self)
        ensures
            final(self)@ == after_clear(old(self)@),
    {
        let ghost s = self@;
        let mut kept: Vec<TaskEntry> = Vec::new();
        let mut i: usize = 0;
        let n = self.entries.len();
        assert(kept@.map_values(|e: TaskEntry| e@) =~= running_of(s, 0));
        while i < n
            invariant
                i <= n,
                n == self.entries@.len(),
                s == self@,
                kept@.map_values(|e: TaskEntry| e@) == running_of(s, i as int),
            decreases n - i,
        {
            let e = &self.entries[i];
            assert(e@ == s[i as int]);
            if e.job.status == JobStatus::Running {
                let copy = TaskEntry {
                    job: e.job.copy(),
                    cache_key: e.cache_key.clone(),
                    attached: e.attached,
                };
                let ghost before = kept@.map_values(|e: TaskEntry| e@);
                kept.push(copy);
                assert(kept@.map_values(|e: TaskEntry| e@) =~= before.push(copy@));
            }
            i = i + 1;
        }
        self.entries = kept;
    }

    /// The records of all jobs, in the order in which they were submitted.
    pub fn get_tasks(&self) -> (r: Vec<Job>)
        ensures
            job_views(r@) == jobs_of(self@),
    {
        let mut r: Vec<Job> = Vec::new();
        let mut i: usize = 0;
        while i < self.entries.len()
            invariant
                i <= self.entries.len(),
                r.len() == i,
                forall|k: int| 0 <= k < i ==> r@[k]@ == self.entries@[k].job@,
            decreases self.entries.len() - i,
        {
            r.push(self.entries[i].job.copy());
            i = i + 1;
        }
        assert(job_views(r@) =~= jobs_of(self@));
        r
    }

    /// The log of the job `id`; empty where there is no such job.
    pub fn get_task_logs(&self, id: &str) -> (r: Vec<String>)
        ensures
            views_of(r@) == match position(self@, id@) {
                Some(i) => self@[i].job.logs,
                None => Seq::empty(),
            },
    {
        match self.index_of(id) {
            Some(i) => {
                assert(self.entries@[i as int]@ == self@[i as int]);
                copy_strings(&self.entries[i].job.logs)
            },
            None => {
                let r: Vec<String> = Vec::new();
                assert(views_of(r@) =~= Seq::<Seq<char>>::empty());
                r
            },
        }
    }

    /// The status of the job `id`.
    pub fn status_of(&self, id: &str) -> (r: Option<JobStatus>)
        ensures
            r == match position(self@, id@) {
                Some(i) => Some(self@[i].job.status),
                None => None,
            },
    {
        match self.index_of(id) {
            Some(i) => {
                assert(self.entries@[i as int]@ == self@[i as int]);
                Some(self.entries[i].job.status)
            },
            None => None,
        }
    }
}

/// Whether `after` is the store `before` once the job `id` ended at `now`
/// with the outcome of its operation.
pub open spec fn completed_at(
    before: Seq<EntryView>,
    after: Seq<EntryView>,
    id: Seq<char>,
    outcome: Result<(), BoxyError>,
    now: i64,
) -> bool {
    match outcome {
        Ok(_) => after == after_close(
            before,
            id,
            JobStatus::Succeeded,
            None,
            Some("Completed"@),
            now,
        ),
        Err(e) => after == after_close(
            before,
            id,
            JobStatus::Failed,
            Some(e.description()),
            Some(e.description()),
            now,
        ),
    }
}


/// A job that has ended is changed by no heartbeat, no step and no later
/// end: it stays in the one terminal state that it reached.
pub proof fn law_terminal_is_final(
    j: JobView,
    status: JobStatus,
    error: Option<Seq<char>>,
    line: Option<Seq<char>>,
    progress: u32,
    text: Seq<char>,
    now: i64,
)
    requires
        j.status.terminal(),
    ensures
        ticked(j) == j,
        advanced(j, progress, text) == j,
        closed_job(j, status, error, line, now) == j,
        logged(j, text).status == j.status,
        logged(j, text).progress == j.progress,
{
}

/// A running job that is ended reaches the status it is ended with, at 100.
pub proof fn law_close_is_terminal(
    j: JobView,
    status: JobStatus,
    error: Option<Seq<char>>,
    line: Option<Seq<char>>,
    now: i64,
)
    requires
        running(j),
        status.terminal(),
    ensures
        closed_job(j, status, error, line, now).status == status,
        closed_job(j, status, error, line, now).status.terminal(),
        closed_job(j, status, error, line, now).progress == Some(100u32),
        closed_job(j, status, error, line, now).finished_at == Some(now),
{
}

/// The progress of a job never falls by a heartbeat or by its end, and a
/// heartbeat never takes it past 90.
pub proof fn law_progress_monotonic(
    j: JobView,
    p: u32,
    status: JobStatus,
    error: Option<Seq<char>>,
    line: Option<Seq<char>>,
    now: i64,
)
    requires
        j.progress == Some(p),
        p <= 100,
    ensures
        ticked(j).progress matches Some(q) && p <= q <= 100 && (running(j) && p <= 90 ==> q <= 90),
        closed_job(j, status, error, line, now).progress matches Some(q) && p <= q <= 100,
{
}

/// Two stores whose jobs have the same ids in the same places find every id
/// in the same place.
pub proof fn lemma_position_by_ids(s: Seq<EntryView>, t: Seq<EntryView>, id: Seq<char>)
    requires
        s.len() == t.len(),
        forall|k: int| 0 <= k < s.len() ==> s[k].job.id == t[k].job.id,
    ensures
        position(s, id) == position(t, id),
    decreases s.len(),
{
    if s.len() > 0 {
        assert forall|k: int| 0 <= k < s.skip(1).len() implies s.skip(1)[k].job.id == t.skip(
            1,
        )[k].job.id by {
            assert(s.skip(1)[k] == s[k + 1]);
            assert(t.skip(1)[k] == t[k + 1]);
        }
        lemma_position_by_ids(s.skip(1), t.skip(1), id);
    }
}

/// Canceling a running job makes it `Canceled`, and it stays `Canceled`
/// when its task reports an outcome afterwards.
pub proof fn law_cancel_wins(
    s: Seq<EntryView>,
    id: Seq<char>,
    now: i64,
    status: JobStatus,
    error: Option<Seq<char>>,
    line: Option<Seq<char>>,
    later: i64,
)
    requires
        position(s, id) matches Some(i) && running(s[i].job),
    ensures
        position(after_cancel(s, id, now), id) == position(s, id),
        after_cancel(s, id, now)[position(s, id).unwrap()].job.status == JobStatus::Canceled,
        after_close(after_cancel(s, id, now), id, status, error, line, later) == after_cancel(
            s,
            id,
            now,
        ),
        close_actions(after_cancel(s, id, now), id, status) == Seq::<ActionView>::empty(),
        after_tick(after_cancel(s, id, now), id) == after_cancel(s, id, now),
{
    lemma_position(s, id);
    let c = after_cancel(s, id, now);
    lemma_position_by_ids(s, c, id);
    let i = position(s, id).unwrap();
    assert(after_close(c, id, status, error, line, later) =~= c);
    assert(after_tick(c, id) =~= c);
}

/// A change of one job leaves every other job as it was.
pub proof fn law_jobs_isolated(
    s: Seq<EntryView>,
    id: Seq<char>,
    k: int,
    status: JobStatus,
    error: Option<Seq<char>>,
    line: Option<Seq<char>>,
    now: i64,
)
    requires
        0 <= k < s.len(),
        position(s, id) != Some(k),
    ensures
        after_tick(s, id)[k] == s[k],
        after_close(s, id, status, error, line, now)[k] == s[k],
        after_cancel(s, id, now)[k] == s[k],
{
    lemma_position(s, id);
}

/// Clearing keeps exactly the running jobs: every job that stays is
/// running, and no job is added.
pub proof fn law_clear_keeps_running(s: Seq<EntryView>, n: int)
    requires
        0 <= n <= s.len(),
    ensures
        running_of(s, n).len() <= n,
        forall|k: int|
            0 <= k < running_of(s, n).len() ==> running(#[trigger] running_of(s, n)[k].job),
        forall|k: int|
            0 <= k < n && running(s[k].job) ==> exists|m: int|
                0 <= m < running_of(s, n).len() && running_of(s, n)[m] == #[trigger] s[k],
    decreases n,
{
    if n > 0 {
        law_clear_keeps_running(s, n - 1);
        let prev = running_of(s, n - 1);
        let cur = running_of(s, n);
        assert forall|k: int| 0 <= k < n && running(s[k].job) implies exists|m: int|
            0 <= m < cur.len() && cur[m] == #[trigger] s[k] by {
            if k < n - 1 {
                let m = choose|m: int| 0 <= m < prev.len() && prev[m] == s[k];
                assert(cur[m] == s[k]);
            } else {
                assert(cur[cur.len() - 1] == s[k]);
            }
        }
    }
}


/// Whether a job is as the store keeps jobs: it was started, its progress
/// is known and at most 100, and it has ended exactly when it is at its
/// end: then it is at 100, has a time of its end, and no task attached.
pub open spec fn entry_wf(e: EntryView) -> bool {
    &&& e.job.status != JobStatus::Pending
    &&& e.job.started_at is Some
    &&& e.job.progress matches Some(p) && p <= 100
    &&& e.job.status.terminal() ==> e.job.progress == Some(100u32) && e.job.finished_at is Some
        && !e.attached
    &&& running(e.job) ==> e.job.finished_at is None
}

/// Whether a store is as the operations below keep it: every job is well
/// formed, and no two jobs have the same id.
pub open spec fn store_wf(s: Seq<EntryView>) -> bool {
    &&& forall|i: int| 0 <= i < s.len() ==> entry_wf(#[trigger] s[i])
    &&& forall|i: int, j: int| 0 <= i < j < s.len() ==> s[i].job.id != s[j].job.id
}

/// The empty store is well formed, and a store stays well formed when a
/// job is submitted under an id that is not in use.
pub proof fn law_submit_keeps_store(
    s: Seq<EntryView>,
    id: Seq<char>,
    manager: Seq<char>,
    operation: Operation,
    target: Seq<char>,
    logs: Seq<Seq<char>>,
    cache_key: Seq<char>,
    now: i64,
)
    requires
        store_wf(s),
        position(s, id) is None,
    ensures
        store_wf(Seq::<EntryView>::empty()),
        store_wf(
            s.push(
                EntryView {
                    job: started_job(id, manager, operation, target, logs, now),
                    cache_key,
                    attached: true,
                },
            ),
        ),
{
    lemma_position(s, id);
}

/// A store stays well formed through every heartbeat, every end of a job,
/// every cancellation and every line added to a log.
pub proof fn law_changes_keep_store(
    s: Seq<EntryView>,
    id: Seq<char>,
    status: JobStatus,
    error: Option<Seq<char>>,
    line: Option<Seq<char>>,
    text: Seq<char>,
    progress: u32,
    now: i64,
)
    requires
        store_wf(s),
        status.terminal(),
        progress <= 100,
    ensures
        store_wf(after_tick(s, id)),
        store_wf(after_close(s, id, status, error, line, now)),
        store_wf(after_cancel(s, id, now)),
        store_wf(after_log(s, id, text)),
        store_wf(after_advance(s, id, progress, text)),
{
    lemma_position(s, id);
}

/// A store stays well formed when a job is deleted and when the jobs that
/// have ended are cleared away.
pub proof fn law_removals_keep_store(s: Seq<EntryView>, id: Seq<char>)
    requires
        store_wf(s),
    ensures
        store_wf(after_delete(s, id)),
        store_wf(after_clear(s)),
{
    lemma_position(s, id);
    lemma_running_of_keeps_order(s, s.len() as int);
    let r = after_clear(s);
    assert forall|i: int| 0 <= i < r.len() implies entry_wf(#[trigger] r[i]) by {
        let k = choose|k: int| 0 <= k < s.len() && r[i] == s[k];
    }
    assert forall|i: int, j: int| 0 <= i < j < r.len() implies r[i].job.id != r[j].job.id by {
        let (a, b) = choose|a: int, b: int|
            0 <= a < b < s.len() && r[i] == s[a] && r[j] == s[b];
    }
}

/// The running jobs stand in the order in which they stood among all jobs.
pub proof fn lemma_running_of_keeps_order(s: Seq<EntryView>, n: int)
    requires
        0 <= n <= s.len(),
    ensures
        forall|i: int|
            0 <= i < running_of(s, n).len() ==> exists|k: int|
                0 <= k < n && #[trigger] running_of(s, n)[i] == s[k],
        forall|i: int, j: int|
            0 <= i < j < running_of(s, n).len() ==> exists|a: int, b: int|
                0 <= a < b < n && #[trigger] running_of(s, n)[i] == s[a] && #[trigger] running_of(
                    s,
                    n,
                )[j] == s[b],
    decreases n,
{
    if n > 0 {
        lemma_running_of_keeps_order(s, n - 1);
        let prev = running_of(s, n - 1);
        let cur = running_of(s, n);
        assert forall|i: int| 0 <= i < cur.len() implies exists|k: int|
            0 <= k < n && #[trigger] cur[i] == s[k] by {
            if i < prev.len() {
                let k = choose|k: int| 0 <= k < n - 1 && prev[i] == s[k];
                assert(cur[i] == s[k]);
            } else {
                assert(cur[i] == s[n - 1]);
            }
        }
        assert forall|i: int, j: int| 0 <= i < j < cur.len() implies exists|a: int, b: int|
            0 <= a < b < n && #[trigger] cur[i] == s[a] && #[trigger] cur[j] == s[b] by {
            if j < prev.len() {
                let (a, b) = choose|a: int, b: int|
                    0 <= a < b < n - 1 && prev[i] == s[a] && prev[j] == s[b];
                assert(cur[i] == s[a] && cur[j] == s[b]);
            } else {
                let a = choose|a: int| 0 <= a < n - 1 && prev[i] == s[a];
                assert(cur[i] == s[a] && cur[j] == s[n - 1]);
            }
        }
    }
}

} // verus!
