//! The adapter for pnpm.

use std::sync::Arc;
use vstd::prelude::*;
use crate::adapter::{
    build_cache_key, digest_of, first_line_path, first_path, install_target, owned, scope_key,
    str_view, target, with_flag,
};
use crate::cache::Cache;
use crate::codec::{required_text, text_at};
use crate::documents::{
    decoded, decoded_one, failure_prefix, flat_search, outdated_found, read_flat_search,
    read_info_output, read_outdated_output, read_output, registry_info,
};
use crate::error::BoxyError;
use crate::json::Json;
use crate::manager::PackageManager;
use crate::package::{bare_package, package_views, Capability, Package, PackageView};
use crate::text::{chars_of, copy_str, opt_view, string_of, strip_leading, strip_start, views_of};

verus! {

/// The adapter for pnpm: its command lines and the readers of its output.
pub struct PnpmManager {
    cache: Arc<Cache>,
    global: bool,
    workdir: Option<String>,
    cache_key: String,
}

/// Where pnpm keeps globally installed packages, as the listing shows it.
pub const GLOBAL_PATH: &'static str = "~/.pnpm-global";

/// The path that the listing shows for an installation.
pub open spec fn shown_path(global: bool) -> Option<Seq<char>> {
    if global {
        Some(GLOBAL_PATH@)
    } else {
        None
    }
}

/// The version that an entry of the dependencies names: the entry itself
/// where it is a text, else the text under `version`.
pub open spec fn dependency_version(value: Json) -> Option<Seq<char>> {
    match value.text() {
        Some(v) => Some(v),
        None => text_at(value, "version"@),
    }
}

/// The entries that hold the dependencies of a project: those under
/// `dependencies` where that is an object, else those of the project
/// itself where it is an object.
pub open spec fn dependency_entries(project: Json) -> Seq<(String, Json)> {
    match project.field("dependencies"@) {
        Some(Json::Object(entries)) => entries@,
        _ => match project {
            Json::Object(entries) => entries@,
            _ => Seq::empty(),
        },
    }
}

/// The packages that the first `n` entries stand for; entries that name
/// no version are passed over. A leading `^` or `~` is no part of the
/// version.
pub open spec fn extracted(entries: Seq<(String, Json)>, global: bool, n: int) -> Seq<PackageView>
    decreases n,
{
    if n <= 0 {
        Seq::empty()
    } else {
        match dependency_version(entries[n - 1].1) {
            Some(version) => extracted(entries, global, n - 1).push(
                PackageView {
                    installed_path: shown_path(global),
                    ..bare_package(entries[n - 1].0@, strip_start(version, "^~"@), "pnpm"@)
                },
            ),
            None => extracted(entries, global, n - 1),
        }
    }
}

/// The packages of a project.
pub open spec fn project_packages(project: Json, global: bool) -> Seq<PackageView> {
    extracted(dependency_entries(project), global, dependency_entries(project).len() as int)
}

/// The packages of the first `n` projects, project after project.
pub open spec fn projects_packages(projects: Seq<Json>, global: bool, n: int) -> Seq<PackageView>
    decreases n,
{
    if n <= 0 {
        Seq::empty()
    } else {
        projects_packages(projects, global, n - 1) + project_packages(projects[n - 1], global)
    }
}

/// The packages that the document of `pnpm list` names: those of every
/// project where it is an array of projects, else those of the one project.
pub open spec fn listed(doc: Json, global: bool) -> Seq<PackageView> {
    match doc.items() {
        Some(projects) => projects_packages(projects, global, projects.len() as int),
        None => project_packages(doc, global),
    }
}

impl PnpmManager {
    pub fn new(cache: Arc<Cache>, global: bool, workdir: Option<String>) -> (m: PnpmManager)
        ensures
            m.store() == cache,
            m.directory() == workdir,
            m.global() == (global),
            m.key() == scope_key("pnpm"@, m.global(), digest_of(workdir)),
    {
        let cache_key = build_cache_key("pnpm", global, &workdir);
        PnpmManager { cache, global, workdir, cache_key }
    }

    /// Whether the adapter works on the global installation.
    pub closed spec fn global(&self) -> bool {
        self.global
    }

    /// The cache that the adapter reads and writes.
    pub closed spec fn store(&self) -> Arc<Cache> {
        self.cache
    }

    /// The cache that the adapter reads and writes.
    pub fn cache(&self) -> (r: &Arc<Cache>)
        ensures
            *r == self.store(),
    {
        &self.cache
    }

    /// Whether the adapter works on the global installation.
    pub fn is_global(&self) -> (r: bool)
        ensures
            r == self.global(),
    {
        self.global
    }

    /// The working directory of a local installation.
    pub closed spec fn directory(&self) -> Option<String> {
        self.workdir
    }

    /// The working directory of a local installation.
    pub fn workdir(&self) -> (r: &Option<String>)
        ensures
            *r == self.directory(),
    {
        &self.workdir
    }

    /// The key of the cache entry.
    pub fn cache_key_value(&self) -> (r: &str)
        ensures
            r@ == self.key(),
    {
        self.cache_key.as_str()
    }

    /// The command line for `args`: `-g` goes first for the global
    /// installation.
    pub fn command_line(&self, args: Vec<String>) -> (r: Vec<String>)
        ensures
            views_of(r@) == if self.global() {
                seq!["-g"@] + views_of(args@)
            } else {
                views_of(args@)
            },
    {
        with_flag(self.global, "-g", args)
    }

    /// The arguments that ask for the root of the installation.
    pub fn root_args(&self) -> (r: Vec<String>)
        ensures
            views_of(r@) == if self.global() {
                seq!["root"@, "-g"@]
            } else {
                seq!["root"@]
            },
    {
        let mut r: Vec<String> = Vec::new();
        r.push(copy_str("root"));
        if self.global {
            r.push(copy_str("-g"));
        }
        assert(views_of(r@) =~= if self.global() {
            seq!["root"@, "-g"@]
        } else {
            seq!["root"@]
        });
        r
    }

    /// The root of the installation that the output of `pnpm root` names.
    pub fn parse_root_output(output: &str) -> (r: Option<String>)
        ensures
            opt_view(r) == first_path(output@),
    {
        first_line_path(output)
    }

    fn shown(&self) -> (r: Option<&'static str>)
        ensures
            str_view(r) == shown_path(self.global()),
    {
        if self.global {
            Some(GLOBAL_PATH)
        } else {
            None
        }
    }

    /// The version that an entry of the dependencies names.
    pub fn parse_dependency_version(value: &Json) -> (r: Option<String>)
        ensures
            opt_view(r) == dependency_version(*value),
    {
        match value.as_str() {
            Some(v) => Some(copy_str(v)),
            None => required_text(value, "version"),
        }
    }

    /// The packages of a project.
    pub fn extract_dependencies(&self, project: &Json) -> (r: Vec<Package>)
        ensures
            package_views(r@) == project_packages(*project, self.global()),
    {
        let entries: &Vec<(String, Json)> = match project.get("dependencies") {
            Some(Json::Object(entries)) => entries,
            _ => match project {
                Json::Object(entries) => entries,
                _ => {
                    let r: Vec<Package> = Vec::new();
                    assert(package_views(r@) =~= Seq::<PackageView>::empty());
                    return r;
                },
            },
        };
        assert(entries@ == dependency_entries(*project));
        let mut out: Vec<Package> = Vec::new();
        let mut i: usize = 0;
        assert(package_views(out@) =~= Seq::<PackageView>::empty());
        while i < entries.len()
            invariant
                i <= entries.len(),
                package_views(out@) == extracted(entries@, self.global(), i as int),
            decreases entries.len() - i,
        {
            match PnpmManager::parse_dependency_version(&entries[i].1) {
                Some(v) => {
                    let stripped = strip_leading(&chars_of(v.as_str()), "^~");
                    let mut p = Package::bare(
                        entries[i].0.clone(),
                        string_of(&stripped),
                        copy_str("pnpm"),
                    );
                    p.installed_path = owned(self.shown());
                    let ghost before = package_views(out@);
                    out.push(p);
                    assert(package_views(out@) =~= before.push(p@));
                },
                None => {},
            }
            i = i + 1;
        }
        out
    }

    /// The packages that the document of `pnpm list` names.
    pub fn packages_of_list(&self, doc: &Json) -> (r: Vec<Package>)
        ensures
            package_views(r@) == listed(*doc, self.global()),
    {
        match doc.as_array() {
            Some(projects) => {
                let mut out: Vec<Package> = Vec::new();
                let mut i: usize = 0;
                assert(package_views(out@) =~= Seq::<PackageView>::empty());
                while i < projects.len()
                    invariant
                        i <= projects.len(),
                        package_views(out@) == projects_packages(
                            projects@,
                            self.global(),
                            i as int,
                        ),
                    decreases projects.len() - i,
                {
                    let mut more = self.extract_dependencies(&projects[i]);
                    let ghost before = package_views(out@);
                    let ghost added = package_views(more@);
                    out.append(&mut more);
                    assert(package_views(out@) =~= before + added);
                    i = i + 1;
                }
                out
            },
            None => self.extract_dependencies(doc),
        }
    }

    /// The packages that the output of `pnpm list --json` names.
    pub fn parse_list_output(&self, output: &str) -> (r: Result<Vec<Package>, BoxyError>)
        ensures
            decoded(
                r,
                output@,
                failure_prefix("pnpm"@, "list"@),
                |doc: Json| Some(listed(doc, self.global())),
            ),
    {
        match read_output(output, "pnpm", "list") {
            Err(e) => Err(e),
            Ok(doc) => Ok(self.packages_of_list(&doc)),
        }
    }

    /// The packages that the output of `pnpm search --json` names.
    pub fn parse_search_output(&self, output: &str) -> (r: Result<Vec<Package>, BoxyError>)
        ensures
            decoded(
                r,
                output@,
                failure_prefix("pnpm"@, "search"@),
                |doc: Json| Some(flat_search(doc, "pnpm"@)),
            ),
    {
        match read_output(output, "pnpm", "search") {
            Err(e) => Err(e),
            Ok(doc) => Ok(read_flat_search(&doc, "pnpm")),
        }
    }

    /// The package that the output of `pnpm info --json` describes.
    pub fn parse_info_output(&self, output: &str) -> (r: Result<Package, BoxyError>)
        ensures
            decoded_one(
                r,
                output@,
                failure_prefix("pnpm"@, "info"@),
                |doc: Json| registry_info(doc, "pnpm"@, shown_path(self.global())),
            ),
    {
        read_info_output(output, "pnpm", self.shown())
    }

    /// The packages that the output of `pnpm outdated --json` names.
    pub fn parse_outdated_output(&self, output: &str) -> (r: Result<Vec<Package>, BoxyError>)
        ensures
            outdated_found(r, output@, "pnpm"@, shown_path(self.global())),
    {
        read_outdated_output(output, "pnpm", self.shown())
    }
}

impl PnpmManager {
    /// The arguments that list the installed packages, as JSON.
    pub fn list_args() -> (r: Vec<String>)
        ensures
            views_of(r@) == seq!["list"@, "--json"@, "--depth=0"@],
    {
        let mut r: Vec<String> = Vec::new();
        r.push(copy_str("list"));
        r.push(copy_str("--json"));
        r.push(copy_str("--depth=0"));
        assert(views_of(r@) =~= seq!["list"@, "--json"@, "--depth=0"@]);
        r
    }

    /// The arguments that search for `query`, as JSON.
    pub fn search_args(query: &str) -> (r: Vec<String>)
        ensures
            views_of(r@) == seq!["search"@, "--json"@, query@],
    {
        let mut r: Vec<String> = Vec::new();
        r.push(copy_str("search"));
        r.push(copy_str("--json"));
        r.push(copy_str(query));
        assert(views_of(r@) =~= seq!["search"@, "--json"@, query@]);
        r
    }

    /// The arguments that describe the package `name`, as JSON.
    pub fn info_args(name: &str) -> (r: Vec<String>)
        ensures
            views_of(r@) == seq!["info"@, "--json"@, name@],
    {
        let mut r: Vec<String> = Vec::new();
        r.push(copy_str("info"));
        r.push(copy_str("--json"));
        r.push(copy_str(name));
        assert(views_of(r@) =~= seq!["info"@, "--json"@, name@]);
        r
    }

    /// The arguments that install `name`, at `version` where one is given.
    pub fn install_args(name: &str, version: Option<&str>) -> (r: Vec<String>)
        ensures
            views_of(r@) == seq!["install"@, target(name@, str_view(version), "@"@)],
    {
        let mut r: Vec<String> = Vec::new();
        r.push(copy_str("install"));
        r.push(install_target(name, version, "@"));
        assert(views_of(r@) =~= seq!["install"@, target(name@, str_view(version), "@"@)]);
        r
    }

    /// The arguments that update `name`.
    pub fn upgrade_args(name: &str) -> (r: Vec<String>)
        ensures
            views_of(r@) == seq!["update"@, name@],
    {
        let mut r: Vec<String> = Vec::new();
        r.push(copy_str("update"));
        r.push(copy_str(name));
        assert(views_of(r@) =~= seq!["update"@, name@]);
        r
    }

    /// The arguments that uninstall `name`.
    pub fn uninstall_args(name: &str, force: bool) -> (r: Vec<String>)
        ensures
            views_of(r@) == seq!["uninstall"@, name@] + (if force {
                seq!["--force"@]
            } else {
                Seq::empty()
            }),
    {
        let mut r: Vec<String> = Vec::new();
        r.push(copy_str("uninstall"));
        r.push(copy_str(name));
        if force {
            r.push(copy_str("--force"));
        }
        assert(views_of(r@) =~= seq!["uninstall"@, name@] + (if force {
                seq!["--force"@]
            } else {
                Seq::empty()
            }));
        r
    }

    /// The arguments that list the outdated packages, as JSON.
    pub fn outdated_args() -> (r: Vec<String>)
        ensures
            views_of(r@) == seq!["outdated"@, "--json"@],
    {
        let mut r: Vec<String> = Vec::new();
        r.push(copy_str("outdated"));
        r.push(copy_str("--json"));
        assert(views_of(r@) =~= seq!["outdated"@, "--json"@]);
        r
    }
}

impl PackageManager for PnpmManager {
    open spec fn title(&self) -> Seq<char> {
        "pnpm"@
    }

    closed spec fn key(&self) -> Seq<char> {
        self.cache_key@
    }

    open spec fn advertised(&self) -> Seq<Capability> {
        seq![
            Capability::ListInstalled,
            Capability::SearchRemote,
            Capability::QueryDependencies,
            Capability::VersionSelection,
        ]
    }

    fn name(&self) -> (r: &str) {
        "pnpm"
    }

    fn cache_key(&self) -> (r: &str) {
        self.cache_key.as_str()
    }

    fn capabilities(&self) -> (r: Vec<Capability>) {
        let mut v: Vec<Capability> = Vec::new();
        v.push(Capability::ListInstalled);
        v.push(Capability::SearchRemote);
        v.push(Capability::QueryDependencies);
        v.push(Capability::VersionSelection);
        assert(v@ =~= self.advertised());
        v
    }
}

} // verus!
