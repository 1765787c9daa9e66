//! The records that the engine passes around: packages, manager status,
//! jobs and the small enumerations they use.

use vstd::prelude::*;
use crate::text::{copy_opt, copy_strings, opt_view, same_opt, same_text, views_of};

verus! {

/// One package as a manager reports it.
#[derive(Debug, Clone)]
pub struct Package {
    pub name: String,
    pub version: String,
    pub manager: String,
    pub description: Option<String>,
    pub homepage: Option<String>,
    pub license: Option<String>,
    pub installed_path: Option<String>,
    pub size: Option<u64>,
    pub outdated: bool,
    pub latest_version: Option<String>,
}

/// What a `Package` holds, as plain values.
pub struct PackageView {
    pub name: Seq<char>,
    pub version: Seq<char>,
    pub manager: Seq<char>,
    pub description: Option<Seq<char>>,
    pub homepage: Option<Seq<char>>,
    pub license: Option<Seq<char>>,
    pub installed_path: Option<Seq<char>>,
    pub size: Option<u64>,
    pub outdated: bool,
    pub latest_version: Option<Seq<char>>,
}

impl View for Package {
    type V = PackageView;

    open spec fn view(&self) -> PackageView {
        PackageView {
            name: self.name@,
            version: self.version@,
            manager: self.manager@,
            description: opt_view(self.description),
            homepage: opt_view(self.homepage),
            license: opt_view(self.license),
            installed_path: opt_view(self.installed_path),
            size: self.size,
            outdated: self.outdated,
            latest_version: opt_view(self.latest_version),
        }
    }
}

/// The views of a sequence of packages.
pub open spec fn package_views(s: Seq<Package>) -> Seq<PackageView> {
    s.map_values(|p: Package| p@)
}

/// A package of `manager` with a name and a version and nothing else known.
pub open spec fn bare_package(name: Seq<char>, version: Seq<char>, manager: Seq<char>)
    -> PackageView {
    PackageView {
        name,
        version,
        manager,
        description: None,
        homepage: None,
        license: None,
        installed_path: None,
        size: None,
        outdated: false,
        latest_version: None,
    }
}

impl Package {
    /// A package of `manager` with a name and a version and nothing else known.
    pub fn bare(name: String, version: String, manager: String) -> (p: Package)
        ensures
            p@ == bare_package(name@, version@, manager@),
    {
        Package {
            name,
            version,
            manager,
            description: None,
            homepage: None,
            license: None,
            installed_path: None,
            size: None,
            outdated: false,
            latest_version: None,
        }
    }

    /// Whether the two packages hold the same.
    pub fn same(&self, other: &Package) -> (r: bool)
        ensures
            r == (self@ == other@),
    {
        same_text(self.name.as_str(), other.name.as_str()) && same_text(
            self.version.as_str(),
            other.version.as_str(),
        ) && same_text(self.manager.as_str(), other.manager.as_str()) && same_opt(
            &self.description,
            &other.description,
        ) && same_opt(&self.homepage, &other.homepage) && same_opt(&self.license, &other.license)
            && same_opt(&self.installed_path, &other.installed_path) && self.size == other.size
            && self.outdated == other.outdated && same_opt(
            &self.latest_version,
            &other.latest_version,
        )
    }

    /// A copy with the same contents.
    pub fn copy(&self) -> (p: Package)
        ensures
            p@ == self@,
    {
        Package {
            name: self.name.clone(),
            version: self.version.clone(),
            manager: self.manager.clone(),
            description: copy_opt(&self.description),
            homepage: copy_opt(&self.homepage),
            license: copy_opt(&self.license),
            installed_path: copy_opt(&self.installed_path),
            size: self.size,
            outdated: self.outdated,
            latest_version: copy_opt(&self.latest_version),
        }
    }
}

/// Whether the two lists hold the same packages in the same order.
pub fn same_packages(a: &Vec<Package>, b: &Vec<Package>) -> (r: bool)
    ensures
        r == (package_views(a@) == package_views(b@)),
{
    if a.len() != b.len() {
        return false;
    }
    let mut i: usize = 0;
    while i < a.len()
        invariant
            a.len() == b.len(),
            i <= a.len(),
            forall|k: int| 0 <= k < i ==> a@[k]@ == b@[k]@,
        decreases a.len() - i,
    {
        if !a[i].same(&b[i]) {
            assert(package_views(a@)[i as int] != package_views(b@)[i as int]);
            return false;
        }
        i = i + 1;
    }
    assert(package_views(a@) =~= package_views(b@));
    true
}

/// A copy of a list of packages.
pub fn copy_packages(v: &Vec<Package>) -> (r: Vec<Package>)
    ensures
        package_views(r@) == package_views(v@),
{
    let mut r: Vec<Package> = Vec::new();
    let mut i: usize = 0;
    while i < v.len()
        invariant
            i <= v.len(),
            r.len() == i,
            forall|k: int| 0 <= k < i ==> r@[k]@ == v@[k]@,
        decreases v.len() - i,
    {
        r.push(v[i].copy());
        i = i + 1;
    }
    assert(package_views(r@) =~= package_views(v@));
    r
}

/// An installed package and the version it could be updated to.
#[derive(Debug, Clone)]
pub struct OutdatedInfo {
    pub package: String,
    pub current: String,
    pub latest: String,
}

/// What is known of one manager after a scan.
#[derive(Debug, Clone)]
pub struct ManagerStatus {
    pub name: String,
    pub version: String,
    pub available: bool,
    pub package_count: usize,
    pub outdated_count: usize,
}

/// A mutating operation on one package.
#[derive(Debug, Clone, Copy, PartialEq, Eq, Structural)]
pub enum Operation {
    Install,
    Update,
    Uninstall,
}

/// Where a job stands. `Succeeded`, `Failed` and `Canceled` are terminal.
#[derive(Debug, Clone, Copy, PartialEq, Eq, Structural)]
pub enum JobStatus {
    Pending,
    Running,
    Succeeded,
    Failed,
    Canceled,
}

impl JobStatus {
    /// Whether no transition leaves this status.
    pub open spec fn terminal(self) -> bool {
        self is Succeeded || self is Failed || self is Canceled
    }

    /// Whether no transition leaves this status.
    pub fn is_terminal(&self) -> (r: bool)
        ensures
            r == self.terminal(),
    {
        match self {
            JobStatus::Succeeded | JobStatus::Failed | JobStatus::Canceled => true,
            _ => false,
        }
    }

    /// The status as events name it.
    pub open spec fn label(self) -> Seq<char> {
        match self {
            JobStatus::Pending => "Pending"@,
            JobStatus::Running => "Running"@,
            JobStatus::Succeeded => "Succeeded"@,
            JobStatus::Failed => "Failed"@,
            JobStatus::Canceled => "Canceled"@,
        }
    }

    /// The status as events name it.
    pub fn name(&self) -> (r: &'static str)
        ensures
            r@ == self.label(),
    {
        match self {
            JobStatus::Pending => "Pending",
            JobStatus::Running => "Running",
            JobStatus::Succeeded => "Succeeded",
            JobStatus::Failed => "Failed",
            JobStatus::Canceled => "Canceled",
        }
    }
}

/// An operation that a manager advertises.
#[derive(Debug, Clone, Copy, PartialEq, Eq, Structural)]
pub enum Capability {
    ListInstalled,
    SearchRemote,
    QueryDependencies,
    VersionSelection,
    BatchInstall,
}

/// A tracked mutating operation.
#[derive(Debug, Clone)]
pub struct Job {
    pub id: String,
    pub manager: String,
    pub operation: Operation,
    pub target: String,
    pub status: JobStatus,
    /// Percent done, 0 to 100.
    pub progress: Option<u32>,
    pub step: Option<String>,
    /// Milliseconds since the Unix epoch.
    pub started_at: Option<i64>,
    /// Milliseconds since the Unix epoch.
    pub finished_at: Option<i64>,
    pub logs: Vec<String>,
    pub error: Option<String>,
}

/// What a `Job` holds, as plain values.
pub struct JobView {
    pub id: Seq<char>,
    pub manager: Seq<char>,
    pub operation: Operation,
    pub target: Seq<char>,
    pub status: JobStatus,
    pub progress: Option<u32>,
    pub step: Option<Seq<char>>,
    pub started_at: Option<i64>,
    pub finished_at: Option<i64>,
    pub logs: Seq<Seq<char>>,
    pub error: Option<Seq<char>>,
}

impl View for Job {
    type V = JobView;

    open spec fn view(&self) -> JobView {
        JobView {
            id: self.id@,
            manager: self.manager@,
            operation: self.operation,
            target: self.target@,
            status: self.status,
            progress: self.progress,
            step: opt_view(self.step),
            started_at: self.started_at,
            finished_at: self.finished_at,
            logs: views_of(self.logs@),
            error: opt_view(self.error),
        }
    }
}

/// The views of a sequence of jobs.
pub open spec fn job_views(s: Seq<Job>) -> Seq<JobView> {
    s.map_values(|j: Job| j@)
}

impl Job {
    /// A copy with the same contents.
    pub fn copy(&self) -> (j: Job)
        ensures
            j@ == self@,
    {
        Job {
            id: self.id.clone(),
            manager: self.manager.clone(),
            operation: self.operation,
            target: self.target.clone(),
            status: self.status,
            progress: self.progress,
            step: copy_opt(&self.step),
            started_at: self.started_at,
            finished_at: self.finished_at,
            logs: copy_strings(&self.logs),
            error: copy_opt(&self.error),
        }
    }
}

} // verus!
