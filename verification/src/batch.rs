//! Updating every outdated package of one manager as a single job: the
//! packages are updated one after the other, and the first failure ends the
//! whole batch.
//!
//! This module says which package is next and keeps the job up to date;
//! asking the manager and updating a package are left to the caller.

use vstd::prelude::*;
use crate::clock::now_millis;
use crate::error::BoxyError;
use crate::jobs::{
    action_views, after_advance, after_close, close_actions, fresh_id, law_changes_keep_store,
    lemma_position, lemma_position_by_ids, position, running, store_wf, ActionView, EntryView,
    JobAction, JobError, TaskStore,
};
use crate::package::{JobStatus, Operation, Package};
use crate::text::{copy_str, join2, join3, views_of};

verus! {

/// What the manager answered when asked for its outdated packages.
#[derive(Debug)]
pub enum Listing {
    /// There is no manager of that name.
    UnknownManager,
    /// The manager could not tell.
    Failed(BoxyError),
    /// The outdated packages.
    Listed(Vec<Package>),
}

/// A batch in progress.
#[derive(Debug)]
pub struct BatchUpdate {
    id: String,
    names: Vec<String>,
    done: usize,
    open: bool,
}

/// What a `BatchUpdate` holds, as plain values: the job, the packages to
/// update in order, how many of them have been tried, and whether the
/// batch goes on.
pub struct BatchView {
    pub id: Seq<char>,
    pub names: Seq<Seq<char>>,
    pub done: nat,
    pub open: bool,
}

impl BatchView {
    /// The package to update next, if the batch goes on.
    pub open spec fn pending(self) -> Option<Seq<char>> {
        if self.open && self.done < self.names.len() {
            Some(self.names[self.done as int])
        } else {
            None
        }
    }

    /// The batch after the update of the pending package succeeded or
    /// failed: a failure ends it, and so does the success of the last
    /// package.
    pub open spec fn after(self, ok: bool) -> BatchView {
        if self.pending() is None {
            self
        } else {
            BatchView {
                done: self.done + 1,
                open: ok && self.done + 1 < self.names.len(),
                ..self
            }
        }
    }

    /// The batch after the outcomes `outcomes` were reported in turn.
    pub open spec fn run(self, outcomes: Seq<bool>) -> BatchView
        decreases outcomes.len(),
    {
        if outcomes.len() == 0 {
            self
        } else {
            self.after(outcomes[0]).run(outcomes.skip(1))
        }
    }
}

/// The progress of a batch of `total` packages after the package at
/// `index`: from 10 to 90 in equal steps, rounded down.
pub open spec fn progress_after(index: nat, total: nat) -> nat {
    let p = 10 + ((index + 1) * 80) / total;
    if p < 90 {
        p
    } else {
        90
    }
}

/// The line that the log gets for the update of one package.
pub open spec fn update_line(name: Seq<char>, outcome: Result<(), BoxyError>) -> Seq<char> {
    match outcome {
        Ok(_) => "更新 "@ + name + " 成功"@,
        Err(e) => "更新 "@ + name + " 失败: "@ + e.description(),
    }
}

/// The names of the packages of `s`, in order.
pub open spec fn names_of(s: Seq<Package>) -> Seq<Seq<char>> {
    s.map_values(|p: Package| p.name@)
}

/// The store after the manager answered `listing` for the batch job `id`:
/// the job ends where the manager is unknown, could not tell, or has
/// nothing outdated.
pub open spec fn after_listing(s: Seq<EntryView>, id: Seq<char>, listing: Listing, now: i64) -> Seq<
    EntryView,
> {
    match listing {
        Listing::UnknownManager => after_close(
            s,
            id,
            JobStatus::Failed,
            Some("unknown manager"@),
            Some("未知的包管理器"@),
            now,
        ),
        Listing::Failed(e) => after_close(
            s,
            id,
            JobStatus::Failed,
            Some(e.description()),
            Some("检查过时包失败: "@ + e.description()),
            now,
        ),
        Listing::Listed(list) => if list@.len() == 0 {
            after_close(s, id, JobStatus::Succeeded, None, Some("没有可更新的包"@), now)
        } else {
            s
        },
    }
}

/// What is to be done after the manager answered `listing`.
pub open spec fn listing_actions(s: Seq<EntryView>, id: Seq<char>, listing: Listing) -> Seq<
    ActionView,
> {
    match listing {
        Listing::Listed(list) => if list@.len() == 0 {
            close_actions(s, id, JobStatus::Succeeded)
        } else {
            Seq::empty()
        },
        _ => close_actions(s, id, JobStatus::Failed),
    }
}

/// The batch that follows the answer `listing`.
pub open spec fn planned(id: Seq<char>, listing: Listing) -> BatchView {
    match listing {
        Listing::Listed(list) => BatchView {
            id,
            names: names_of(list@),
            done: 0,
            open: list@.len() > 0,
        },
        _ => BatchView { id, names: Seq::empty(), done: 0, open: false },
    }
}

/// The store after the update of the pending package of `b` ended with
/// `outcome`: the job shows the progress and the line, and ends where the
/// update failed or the package was the last one.
pub open spec fn after_update(
    s: Seq<EntryView>,
    b: BatchView,
    outcome: Result<(), BoxyError>,
    now: i64,
) -> Seq<EntryView> {
    match b.pending() {
        None => s,
        Some(name) => {
            let stepped = after_advance(
                s,
                b.id,
                progress_after(b.done, b.names.len()) as u32,
                update_line(name, outcome),
            );
            if outcome is Err {
                after_close(stepped, b.id, JobStatus::Failed, Some("批量更新失败"@), None, now)
            } else if b.done + 1 == b.names.len() {
                after_close(stepped, b.id, JobStatus::Succeeded, None, None, now)
            } else {
                stepped
            }
        },
    }
}

/// What is to be done after the update of the pending package of `b`.
pub open spec fn update_actions(s: Seq<EntryView>, b: BatchView, outcome: Result<(), BoxyError>)
    -> Seq<ActionView> {
    match b.pending() {
        None => Seq::empty(),
        Some(name) => {
            let p = progress_after(b.done, b.names.len()) as u32;
            let stepped = after_advance(s, b.id, p, update_line(name, outcome));
            let first = match position(s, b.id) {
                Some(i) if running(s[i].job) => seq![
                    ActionView::Progress { task_id: b.id, progress: p },
                ],
                _ => Seq::empty(),
            };
            if outcome is Err {
                first + close_actions(stepped, b.id, JobStatus::Failed)
            } else if b.done + 1 == b.names.len() {
                first + close_actions(stepped, b.id, JobStatus::Succeeded)
            } else {
                first
            }
        },
    }
}

/// Whether `after` is the store `before` with the running job `id` of a
/// batch added at its end.
pub open spec fn begun(before: Seq<EntryView>, after: Seq<EntryView>, id: Seq<char>) -> bool {
    let job = after.last().job;
    &&& position(before, id) is None
    &&& after.len() == before.len() + 1
    &&& after.drop_last() == before
    &&& job.id == id
    &&& running(job)
    &&& job.operation == Operation::Update
    &&& job.target == "outdated"@
    &&& job.logs == seq!["开始批量更新过时包"@]
    &&& job.progress == Some(0u32)
}

/// The progress of a batch of `total` packages after the package at `index`.
pub fn batch_progress(index: usize, total: usize) -> (p: u32)
    requires
        total > 0,
    ensures
        p == progress_after(index as nat, total as nat),
        10 <= p <= 90,
{
    let steps: u128 = ((index as u128) + 1) * 80;
    let q: u128 = steps / (total as u128);
    if q < 80 {
        (10 + q) as u32
    } else {
        90
    }
}

impl View for BatchUpdate {
    type V = BatchView;

    closed spec fn view(&self) -> BatchView {
        BatchView {
            id: self.id@,
            names: views_of(self.names@),
            done: self.done as nat,
            open: self.open,
        }
    }
}

impl BatchUpdate {
    /// Submits the job of a batch for `manager` now: an update of the
    /// target `outdated`.
    pub fn begin(store: &mut TaskStore, manager: &str, cache_key: &str) -> (r: Result<
        (String, Vec<JobAction>),
        JobError,
    >)
        ensures
            match r {
                Ok((id, actions)) => begun(old(store)@, final(store)@, id@),
                Err(e) => e == JobError::DuplicateId && final(store)@ == old(store)@,
            },
    {
        let id = fresh_id();
        let now = now_millis();
        let mut logs: Vec<String> = Vec::new();
        logs.push(copy_str("开始批量更新过时包"));
        assert(views_of(logs@) =~= seq!["开始批量更新过时包"@]);
        match store.submit_as(
            id.clone(),
            manager,
            Operation::Update,
            "outdated",
            cache_key,
            logs,
            now,
        ) {
            Ok(actions) => {
                assert(store@.drop_last() =~= old(store)@);
                Ok((id, actions))
            },
            Err(e) => Err(e),
        }
    }

    /// Takes the manager's answer for the batch job `id` at the time `now`.
    pub fn plan(store: &mut TaskStore, id: &str, listing: Listing, now: i64) -> (r: (
        BatchUpdate,
        Vec<JobAction>,
    ))
        ensures
            final(store)@ == after_listing(old(store)@, id@, listing, now),
            r.0@ == planned(id@, listing),
            action_views(r.1@) == listing_actions(old(store)@, id@, listing),
    {
        match listing {
            Listing::UnknownManager => {
                let actions = store.close(
                    id,
                    JobStatus::Failed,
                    Some(copy_str("unknown manager")),
                    Some(copy_str("未知的包管理器")),
                    now,
                );
                let b = BatchUpdate { id: copy_str(id), names: Vec::new(), done: 0, open: false };
                assert(b@.names =~= Seq::<Seq<char>>::empty());
                (b, actions)
            },
            Listing::Failed(e) => {
                let text = e.message();
                let line = join2("检查过时包失败: ", text.as_str());
                let actions = store.close(id, JobStatus::Failed, Some(text), Some(line), now);
                let b = BatchUpdate { id: copy_str(id), names: Vec::new(), done: 0, open: false };
                assert(b@.names =~= Seq::<Seq<char>>::empty());
                (b, actions)
            },
            Listing::Listed(list) => {
                let mut names: Vec<String> = Vec::new();
                let mut i: usize = 0;
                while i < list.len()
                    invariant
                        i <= list.len(),
                        names.len() == i,
                        forall|k: int| 0 <= k < i ==> names@[k]@ == list@[k].name@,
                    decreases list.len() - i,
                {
                    names.push(list[i].name.clone());
                    i = i + 1;
                }
                assert(views_of(names@) =~= names_of(list@));
                if list.len() == 0 {
                    let actions = store.close(
                        id,
                        JobStatus::Succeeded,
                        None,
                        Some(copy_str("没有可更新的包")),
                        now,
                    );
                    (BatchUpdate { id: copy_str(id), names, done: 0, open: false }, actions)
                } else {
                    let actions: Vec<JobAction> = Vec::new();
                    assert(action_views(actions@) =~= Seq::<ActionView>::empty());
                    (BatchUpdate { id: copy_str(id), names, done: 0, open: true }, actions)
                }
            },
        }
    }

    /// The package to update next; none once the batch has ended.
    pub fn next_package(&self) -> (r: Option<&str>)
        ensures
            match r {
                Some(name) => self@.pending() == Some(name@),
                None => self@.pending() is None,
            },
    {
        if self.open && self.done < self.names.len() {
            Some(self.names[self.done].as_str())
        } else {
            None
        }
    }

    /// Whether the batch goes on.
    pub fn is_open(&self) -> (r: bool)
        ensures
            r == self@.pending() is Some,
    {
        self.open && self.done < self.names.len()
    }

    /// Records at the time `now` how the update of the pending package
    /// ended. Nothing happens where no package is pending.
    pub fn record(&mut self, store: &mut TaskStore, outcome: Result<(), BoxyError>, now: i64)
        -> (actions: Vec<JobAction>)
        ensures
            final(self)@ == old(self)@.after(outcome is Ok),
            final(store)@ == after_update(old(store)@, old(self)@, outcome, now),
            action_views(actions@) == update_actions(old(store)@, old(self)@, outcome),
    {
        let mut actions: Vec<JobAction> = Vec::new();
        if !(self.open && self.done < self.names.len()) {
            assert(action_views(actions@) =~= Seq::<ActionView>::empty());
            return actions;
        }
        let total = self.names.len();
        let p = batch_progress(self.done, total);
        let name = self.names[self.done].as_str();
        let line = match &outcome {
            Ok(_) => join3("更新 ", name, " 成功"),
            Err(e) => {
                let text = e.message();
                let head = join3("更新 ", name, " 失败: ");
                join2(head.as_str(), text.as_str())
            },
        };
        assert(line@ == update_line(self@.names[self.done as int], outcome));
        if let Some(status) = store.status_of(self.id.as_str()) {
            if status == JobStatus::Running {
                actions.push(JobAction::Progress { task_id: self.id.clone(), progress: p });
            }
        }
        let ghost first = action_views(actions@);
        store.advance(self.id.as_str(), p, line);
        let failed = outcome.is_err();
        self.done = self.done + 1;
        if failed {
            self.open = false;
            let mut rest = store.close(
                self.id.as_str(),
                JobStatus::Failed,
                Some(copy_str("批量更新失败")),
                None,
                now,
            );
            let ghost second = action_views(rest@);
            actions.append(&mut rest);
            assert(action_views(actions@) =~= first + second);
        } else if self.done == total {
            self.open = false;
            let mut rest = store.close(self.id.as_str(), JobStatus::Succeeded, None, None, now);
            let ghost second = action_views(rest@);
            actions.append(&mut rest);
            assert(action_views(actions@) =~= first + second);
        }
        assert(first =~= match position(old(store)@, old(self)@.id) {
            Some(i) if running(old(store)@[i].job) => seq![
                ActionView::Progress { task_id: old(self)@.id, progress: p },
            ],
            _ => Seq::empty(),
        });
        actions
    }
}

/// A batch that has ended stays ended: no outcome reported later makes a
/// package pending again.
pub proof fn law_batch_ended_stays(b: BatchView, outcomes: Seq<bool>)
    requires
        b.pending() is None,
    ensures
        b.run(outcomes) == b,
    decreases outcomes.len(),
{
    if outcomes.len() > 0 {
        law_batch_ended_stays(b, outcomes.skip(1));
    }
}

/// The batch stops at the first failure: where the packages before the one
/// at `k` are updated and the one at `k` fails, exactly `k + 1` packages
/// have been tried, and none of the later ones is ever pending.
pub proof fn law_batch_stops_at_first_failure(b: BatchView, outcomes: Seq<bool>, k: nat)
    requires
        b.open,
        b.done + k < b.names.len(),
        k < outcomes.len(),
        forall|j: int| 0 <= j < k ==> outcomes[j],
        !outcomes[k as int],
    ensures
        b.run(outcomes).done == b.done + k + 1,
        !b.run(outcomes).open,
        b.run(outcomes).pending() is None,
        b.run(outcomes).names == b.names,
    decreases k,
{
    let next = b.after(outcomes[0]);
    let rest = outcomes.skip(1);
    if k == 0 {
        law_batch_ended_stays(next, rest);
    } else {
        assert(outcomes[0]);
        assert forall|j: int| 0 <= j < k - 1 implies rest[j] by {
            assert(rest[j] == outcomes[j + 1]);
        }
        assert(rest[k - 1] == outcomes[k as int]);
        law_batch_stops_at_first_failure(next, rest, (k - 1) as nat);
    }
}

/// Where every update succeeds, every package is tried once and the batch
/// ends after the last one.
pub proof fn law_batch_runs_to_the_end(b: BatchView, outcomes: Seq<bool>)
    requires
        b.open,
        b.done < b.names.len(),
        b.done + outcomes.len() >= b.names.len(),
        forall|j: int| 0 <= j < outcomes.len() ==> outcomes[j],
    ensures
        b.run(outcomes).done == b.names.len(),
        b.run(outcomes).pending() is None,
    decreases outcomes.len(),
{
    let next = b.after(outcomes[0]);
    let rest = outcomes.skip(1);
    if next.pending() is None {
        law_batch_ended_stays(next, rest);
    } else {
        assert forall|j: int| 0 <= j < rest.len() implies rest[j] by {
            assert(rest[j] == outcomes[j + 1]);
        }
        law_batch_runs_to_the_end(next, rest);
    }
}

/// The job of a batch fails with the first failed update: a running job
/// is `Failed` afterwards.
pub proof fn law_batch_failure_fails_job(
    s: Seq<EntryView>,
    b: BatchView,
    e: BoxyError,
    now: i64,
)
    requires
        b.pending() is Some,
        position(s, b.id) matches Some(i) && running(s[i].job),
    ensures
        after_update(s, b, Err(e), now)[position(s, b.id).unwrap()].job.status
            == JobStatus::Failed,
        after_update(s, b, Err(e), now)[position(s, b.id).unwrap()].job.error == Some(
            "批量更新失败"@,
        ),
{
    lemma_position(s, b.id);
    let name = b.pending().unwrap();
    let stepped = after_advance(
        s,
        b.id,
        progress_after(b.done, b.names.len()) as u32,
        update_line(name, Err(e)),
    );
    lemma_position_by_ids(s, stepped, b.id);
}

/// The progress of a batch rises with every package and stays between 10
/// and 90.
pub proof fn law_batch_progress_rises(index: nat, later: nat, total: nat)
    requires
        index <= later < total,
    ensures
        10 <= progress_after(index, total) <= progress_after(later, total) <= 90,
{
    vstd::arithmetic::div_mod::lemma_div_is_ordered(
        ((index + 1) * 80) as int,
        ((later + 1) * 80) as int,
        total as int,
    );
    vstd::arithmetic::div_mod::lemma_div_pos_is_pos(((index + 1) * 80) as int, total as int);
}


/// A store stays well formed through every step of a batch.
pub proof fn law_batch_keeps_store(
    s: Seq<EntryView>,
    b: BatchView,
    listing: Listing,
    outcome: Result<(), BoxyError>,
    now: i64,
)
    requires
        store_wf(s),
    ensures
        store_wf(after_listing(s, b.id, listing, now)),
        store_wf(after_update(s, b, outcome, now)),
{
    let none: Seq<char> = Seq::empty();
    match listing {
        Listing::UnknownManager => {
            law_changes_keep_store(
                s,
                b.id,
                JobStatus::Failed,
                Some("unknown manager"@),
                Some("未知的包管理器"@),
                none,
                0,
                now,
            );
        },
        Listing::Failed(e) => {
            law_changes_keep_store(
                s,
                b.id,
                JobStatus::Failed,
                Some(e.description()),
                Some("检查过时包失败: "@ + e.description()),
                none,
                0,
                now,
            );
        },
        Listing::Listed(list) => {
            law_changes_keep_store(
                s,
                b.id,
                JobStatus::Succeeded,
                None,
                Some("没有可更新的包"@),
                none,
                0,
                now,
            );
        },
    }
    match b.pending() {
        None => {},
        Some(name) => {
            let p = progress_after(b.done, b.names.len()) as u32;
            let line = update_line(name, outcome);
            let stepped = after_advance(s, b.id, p, line);
            law_changes_keep_store(
                s,
                b.id,
                JobStatus::Failed,
                None,
                None,
                line,
                p,
                now,
            );
            law_changes_keep_store(
                stepped,
                b.id,
                JobStatus::Failed,
                Some("批量更新失败"@),
                None,
                none,
                0,
                now,
            );
            law_changes_keep_store(
                stepped,
                b.id,
                JobStatus::Succeeded,
                None,
                None,
                none,
                0,
                now,
            );
        },
    }
}

} // verus!
