//! The aggregator: one read-only query goes out to every manager asked
//! for, a bounded number of them at a time, and what comes back is put
//! together manager by manager. The failure of one manager is reported
//! beside the results of the others and never fails the whole.
//!
//! This module schedules and compiles; asking the managers is left to the
//! caller.

use vstd::prelude::*;
use crate::error::BoxyError;
use crate::manager::{all_managers, manager_names};
use crate::package::{copy_packages, package_views, ManagerStatus, Package, PackageView};
use crate::text::{copy_opt, copy_str, same_text, views_of};

verus! {

/// How many managers are asked at the same time.
pub const SCAN_CONCURRENCY: usize = 5;

/// The time allowed for a mutating command, in milliseconds.
pub const COMMAND_TIMEOUT_MS: u64 = 300_000;

/// The time allowed for a read-only query over all managers, in milliseconds.
pub const READ_COMMAND_TIMEOUT_MS: u64 = 60_000;

/// The time allowed for the check whether a manager is available, in
/// milliseconds.
pub const AVAILABILITY_TIMEOUT_MS: u64 = 500;

/// The time allowed for the list of outdated packages when it only adds to
/// the list of installed packages, in milliseconds.
pub const OUTDATED_TIMEOUT_MS: u64 = 5_000;

/// The managers that a query goes to: the one named, or all.
pub fn resolve_manager_names(manager_name: Option<&str>) -> (r: Vec<String>)
    ensures
        views_of(r@) == match manager_name {
            Some(name) => seq![name@],
            None => manager_names(),
        },
{
    match manager_name {
        Some(name) => {
            let mut r: Vec<String> = Vec::new();
            r.push(copy_str(name));
            assert(views_of(r@) =~= seq![name@]);
            r
        },
        None => all_managers(),
    }
}

/// What came back from one manager.
#[derive(Debug)]
pub enum Answer {
    /// The manager is unknown or not installed.
    Unavailable,
    /// The query failed.
    Failed(BoxyError),
    /// The query did not end in time.
    TimedOut,
    /// The packages that the manager reported.
    Packages(Vec<Package>),
}

/// The entry of one manager in the result of a query.
#[derive(Debug)]
pub struct ManagerResult {
    pub manager: String,
    pub available: bool,
    pub packages: Vec<Package>,
    pub error: Option<BoxyError>,
}

/// What a `ManagerResult` holds, as plain values.
pub struct ResultView {
    pub manager: Seq<char>,
    pub available: bool,
    pub packages: Seq<PackageView>,
    pub error: Option<BoxyError>,
}

impl View for ManagerResult {
    type V = ResultView;

    open spec fn view(&self) -> ResultView {
        ResultView {
            manager: self.manager@,
            available: self.available,
            packages: package_views(self.packages@),
            error: self.error,
        }
    }
}

/// The views of a sequence of entries.
pub open spec fn result_views(s: Seq<ManagerResult>) -> Seq<ResultView> {
    s.map_values(|r: ManagerResult| r@)
}

/// The entry of `manager` for `answer`: the packages where the query went
/// well, else no packages and, for a failure, the reason. A query that did
/// not end in time counts as `CommandTimeout`.
pub open spec fn entry_for(manager: Seq<char>, answer: Answer) -> ResultView {
    match answer {
        Answer::Unavailable => ResultView {
            manager,
            available: false,
            packages: Seq::empty(),
            error: None,
        },
        Answer::Failed(e) => ResultView {
            manager,
            available: true,
            packages: Seq::empty(),
            error: Some(e),
        },
        Answer::TimedOut => ResultView {
            manager,
            available: true,
            packages: Seq::empty(),
            error: Some(BoxyError::CommandTimeout),
        },
        Answer::Packages(list) => ResultView {
            manager,
            available: true,
            packages: package_views(list@),
            error: None,
        },
    }
}

/// The entry of `manager` for `answer`.
pub fn result_for(manager: &str, answer: Answer) -> (r: ManagerResult)
    ensures
        r@ == entry_for(manager@, answer),
{
    match answer {
        Answer::Unavailable => {
            let packages: Vec<Package> = Vec::new();
            assert(package_views(packages@) =~= Seq::<PackageView>::empty());
            ManagerResult { manager: copy_str(manager), available: false, packages, error: None }
        },
        Answer::Failed(e) => {
            let packages: Vec<Package> = Vec::new();
            assert(package_views(packages@) =~= Seq::<PackageView>::empty());
            ManagerResult { manager: copy_str(manager), available: true, packages, error: Some(e) }
        },
        Answer::TimedOut => {
            let packages: Vec<Package> = Vec::new();
            assert(package_views(packages@) =~= Seq::<PackageView>::empty());
            ManagerResult {
                manager: copy_str(manager),
                available: true,
                packages,
                error: Some(BoxyError::CommandTimeout),
            }
        },
        Answer::Packages(list) => ManagerResult {
            manager: copy_str(manager),
            available: true,
            packages: list,
            error: None,
        },
    }
}

/// The result of a query: for each manager asked, in the order asked, the
/// entry for its answer.
pub open spec fn aggregated(asked: Seq<(String, Answer)>) -> Seq<ResultView> {
    Seq::new(asked.len(), |i: int| entry_for(asked[i].0@, asked[i].1))
}

/// Puts the answers of the managers together: one entry for each manager
/// asked, in the order asked.
pub fn aggregate(asked: Vec<(String, Answer)>) -> (r: Vec<ManagerResult>)
    ensures
        result_views(r@) == aggregated(asked@),
{
    let ghost all = asked@;
    let mut rest = asked;
    let mut out: Vec<ManagerResult> = Vec::new();
    let n = rest.len();
    let mut i: usize = 0;
    assert(all.skip(0) == all);
    while i < n
        invariant
            i <= n,
            n == all.len(),
            rest@ == all.skip(i as int),
            out.len() == i,
            forall|k: int| 0 <= k < i ==> out@[k]@ == entry_for(all[k].0@, all[k].1),
        decreases n - i,
    {
        let (name, answer) = rest.remove(0);
        assert((name, answer) == all[i as int]);
        assert(rest@ =~= all.skip(i + 1));
        out.push(result_for(name.as_str(), answer));
        i = i + 1;
    }
    assert(result_views(out@) =~= aggregated(all));
    out
}

/// The packages of the first `n` entries of `s`, manager after manager.
pub open spec fn compiled(s: Seq<ResultView>, n: int) -> Seq<PackageView>
    decreases n,
{
    if n <= 0 {
        Seq::empty()
    } else {
        compiled(s, n - 1) + s[n - 1].packages
    }
}

/// All packages of a result in one list, manager after manager. A manager
/// that failed adds nothing.
pub fn compile(results: &Vec<ManagerResult>) -> (r: Vec<Package>)
    ensures
        package_views(r@) == compiled(result_views(results@), results.len() as int),
{
    let mut out: Vec<Package> = Vec::new();
    let mut i: usize = 0;
    assert(package_views(out@) =~= compiled(result_views(results@), 0));
    while i < results.len()
        invariant
            i <= results.len(),
            package_views(out@) == compiled(result_views(results@), i as int),
        decreases results.len() - i,
    {
        let mut more = copy_packages(&results[i].packages);
        let ghost before = package_views(out@);
        let ghost added = package_views(more@);
        assert(result_views(results@)[i as int].packages == added);
        out.append(&mut more);
        assert(package_views(out@) =~= before + added);
        i = i + 1;
    }
    out
}

/// How many of the first `n` packages of `s` are outdated.
pub open spec fn outdated_among(s: Seq<PackageView>, n: int) -> nat
    decreases n,
{
    if n <= 0 {
        0
    } else if s[n - 1].outdated {
        outdated_among(s, n - 1) + 1
    } else {
        outdated_among(s, n - 1)
    }
}

/// How many of `packages` are outdated.
pub fn count_outdated(packages: &Vec<Package>) -> (r: usize)
    ensures
        r == outdated_among(package_views(packages@), packages.len() as int),
{
    let mut count: usize = 0;
    let mut i: usize = 0;
    while i < packages.len()
        invariant
            i <= packages.len(),
            count <= i,
            count == outdated_among(package_views(packages@), i as int),
        decreases packages.len() - i,
    {
        assert(package_views(packages@)[i as int] == packages@[i as int]@);
        if packages[i].outdated {
            count = count + 1;
        }
        i = i + 1;
    }
    count
}

/// The status of a manager after a scan: whether it is available, and what
/// the cache holds for it.
pub fn status_for(name: &str, available: bool, cached: &Vec<Package>) -> (r: ManagerStatus)
    ensures
        r.name@ == name@,
        r.version@ == Seq::<char>::empty(),
        r.available == available,
        r.package_count == cached.len(),
        r.outdated_count == outdated_among(package_views(cached@), cached.len() as int),
{
    ManagerStatus {
        name: copy_str(name),
        version: String::new(),
        available,
        package_count: cached.len(),
        outdated_count: count_outdated(cached),
    }
}

/// The index of the last of the first `n` packages of `s` that has the
/// name `name`.
pub open spec fn last_named(s: Seq<PackageView>, name: Seq<char>, n: int) -> Option<int>
    decreases n,
{
    if n <= 0 {
        None
    } else if s[n - 1].name == name {
        Some(n - 1)
    } else {
        last_named(s, name, n - 1)
    }
}

/// An installed package with what the list of outdated packages says of
/// it: where the list names it, it is outdated, and its latest version is
/// that of the last entry of the list with its name.
pub open spec fn annotated(p: PackageView, outdated: Seq<PackageView>) -> PackageView {
    match last_named(outdated, p.name, outdated.len() as int) {
        Some(k) => PackageView { outdated: true, latest_version: outdated[k].latest_version, ..p },
        None => p,
    }
}

/// The installed packages with what the list of outdated packages says of
/// each.
pub open spec fn merged(installed: Seq<PackageView>, outdated: Seq<PackageView>) -> Seq<
    PackageView,
> {
    Seq::new(installed.len(), |i: int| annotated(installed[i], outdated))
}

/// The last package of `outdated` with the name `name`.
fn find_last<'a>(outdated: &'a Vec<Package>, name: &str) -> (r: Option<&'a Package>)
    ensures
        match last_named(package_views(outdated@), name@, outdated.len() as int) {
            Some(k) => r matches Some(p) && p@ == package_views(outdated@)[k],
            None => r is None,
        },
{
    let ghost s = package_views(outdated@);
    let mut n: usize = outdated.len();
    while n > 0
        invariant
            n <= outdated.len(),
            s == package_views(outdated@),
            last_named(s, name@, outdated.len() as int) == last_named(s, name@, n as int),
        decreases n,
    {
        assert(s[n - 1] == outdated@[n - 1]@);
        if same_text(outdated[n - 1].name.as_str(), name) {
            return Some(&outdated[n - 1]);
        }
        n = n - 1;
    }
    None
}

/// Marks the installed packages that the list of outdated packages names,
/// and notes their latest version.
pub fn annotate_outdated(installed: Vec<Package>, outdated: &Vec<Package>) -> (r: Vec<Package>)
    ensures
        package_views(r@) == merged(package_views(installed@), package_views(outdated@)),
{
    let mut out: Vec<Package> = Vec::new();
    let mut i: usize = 0;
    while i < installed.len()
        invariant
            i <= installed.len(),
            out.len() == i,
            forall|k: int|
                0 <= k < i ==> out@[k]@ == annotated(installed@[k]@, package_views(outdated@)),
        decreases installed.len() - i,
    {
        let mut p = installed[i].copy();
        match find_last(outdated, p.name.as_str()) {
            Some(o) => {
                p.outdated = true;
                p.latest_version = copy_opt(&o.latest_version);
            },
            None => {},
        }
        out.push(p);
        i = i + 1;
    }
    assert(package_views(out@) =~= merged(package_views(installed@), package_views(outdated@)));
    out
}

/// The entry of a manager depends on its own answer alone: whatever the
/// other managers answer, and be it a failure or no answer in time, the
/// entry stays the same.
pub proof fn law_aggregate_isolated(
    asked: Seq<(String, Answer)>,
    others: Seq<(String, Answer)>,
    i: int,
)
    requires
        asked.len() == others.len(),
        0 <= i < asked.len(),
        asked[i] == others[i],
    ensures
        aggregated(asked).len() == asked.len(),
        aggregated(asked)[i] == aggregated(others)[i],
        aggregated(asked)[i].manager == asked[i].0@,
{
}

/// A manager that failed or did not answer in time has an entry without
/// packages that carries the reason, and a manager that answered has its
/// packages.
pub proof fn law_failures_reported_inline(asked: Seq<(String, Answer)>, i: int)
    requires
        0 <= i < asked.len(),
    ensures
        asked[i].1 is TimedOut ==> aggregated(asked)[i].packages.len() == 0 && aggregated(
            asked,
        )[i].error == Some(BoxyError::CommandTimeout),
        asked[i].1 matches Answer::Failed(e) ==> aggregated(asked)[i].packages.len() == 0
            && aggregated(asked)[i].error == Some(e),
        asked[i].1 matches Answer::Packages(list) ==> aggregated(asked)[i].packages
            == package_views(list@) && aggregated(asked)[i].error is None,
{
}

/// The bounded fan-out: which query starts next, with at most `width`
/// queries in flight.
#[derive(Debug, Clone, Copy)]
pub struct Scheduler {
    width: usize,
    total: usize,
    started: usize,
    in_flight: usize,
}

/// What a `Scheduler` holds, as plain values.
pub struct SchedulerView {
    pub width: nat,
    pub total: nat,
    pub started: nat,
    pub in_flight: nat,
}

impl SchedulerView {
    /// How many queries have ended.
    pub open spec fn finished(self) -> int {
        self.started - self.in_flight
    }

    /// Whether the counts fit together: no more queries in flight than
    /// started, no more started than there are, no more in flight than the
    /// width allows.
    pub open spec fn wf(self) -> bool {
        self.in_flight <= self.started <= self.total && self.in_flight <= self.width
    }

    /// Whether a query may start.
    pub open spec fn ready(self) -> bool {
        self.started < self.total && self.in_flight < self.width
    }

    /// The fan-out after the next query started, where one may.
    pub open spec fn start(self) -> SchedulerView {
        if self.ready() {
            SchedulerView { started: self.started + 1, in_flight: self.in_flight + 1, ..self }
        } else {
            self
        }
    }

    /// The fan-out after a query in flight ended.
    pub open spec fn finish(self) -> SchedulerView {
        if self.in_flight > 0 {
            SchedulerView { in_flight: (self.in_flight - 1) as nat, ..self }
        } else {
            self
        }
    }

    /// Whether every query has started and ended.
    pub open spec fn done(self) -> bool {
        self.started == self.total && self.in_flight == 0
    }
}

impl View for Scheduler {
    type V = SchedulerView;

    closed spec fn view(&self) -> SchedulerView {
        SchedulerView {
            width: self.width as nat,
            total: self.total as nat,
            started: self.started as nat,
            in_flight: self.in_flight as nat,
        }
    }
}

impl Scheduler {
    /// A fan-out of `total` queries, at most `width` of them at a time.
    pub fn new(width: usize, total: usize) -> (s: Scheduler)
        ensures
            s@ == (SchedulerView {
                width: width as nat,
                total: total as nat,
                started: 0,
                in_flight: 0,
            }),
    {
        Scheduler { width, total, started: 0, in_flight: 0 }
    }

    /// Starts the next query where one may start, and says which it is.
    pub fn start_next(&mut self) -> (r: Option<usize>)
        ensures
            final(self)@ == old(self)@.start(),
            r == if old(self)@.ready() {
                Some(old(self)@.started as usize)
            } else {
                None
            },
    {
        if self.started < self.total && self.in_flight < self.width {
            let index = self.started;
            self.started = self.started + 1;
            self.in_flight = self.in_flight + 1;
            Some(index)
        } else {
            None
        }
    }

    /// Records that a query in flight ended.
    pub fn finish_one(&mut self)
        ensures
            final(self)@ == old(self)@.finish(),
    {
        if self.in_flight > 0 {
            self.in_flight = self.in_flight - 1;
        }
    }

    /// Whether every query has started and ended.
    pub fn is_done(&self) -> (r: bool)
        ensures
            r == self@.done(),
    {
        self.started == self.total && self.in_flight == 0
    }

    /// How many queries are in flight.
    pub fn in_flight(&self) -> (r: usize)
        ensures
            r == self@.in_flight,
    {
        self.in_flight
    }
}

/// Never are more queries in flight than the width allows, whatever starts
/// and ends: a fan-out is well formed at its start and stays so.
pub proof fn law_fan_out_bounded(s: SchedulerView, width: nat, total: nat)
    requires
        s.wf(),
    ensures
        (SchedulerView { width, total, started: 0, in_flight: 0 }).wf(),
        s.start().wf(),
        s.finish().wf(),
        s.start().in_flight <= s.width,
        s.start().finished() == s.finished(),
        s.in_flight > 0 ==> s.finish().finished() == s.finished() + 1,
{
}

/// The fan-out does not get stuck: with a width of at least one, as long
/// as not every query has ended, one can start or one is in flight.
pub proof fn law_fan_out_progress(s: SchedulerView)
    requires
        s.wf(),
        s.width >= 1,
        !s.done(),
    ensures
        s.ready() || s.in_flight > 0,
{
}

/// The check whether a manager is there gets less time than a query, and
/// a query over all managers less than a command that changes something.
pub proof fn law_time_boxes_ordered()
    ensures
        AVAILABILITY_TIMEOUT_MS < 1_000,
        AVAILABILITY_TIMEOUT_MS < OUTDATED_TIMEOUT_MS < READ_COMMAND_TIMEOUT_MS
            < COMMAND_TIMEOUT_MS,
{
}

} // verus!
