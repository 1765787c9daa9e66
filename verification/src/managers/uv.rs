//! The adapter for uv.

use std::sync::Arc;
use vstd::prelude::*;
use crate::adapter::{
    described, install_target, parse_info, parse_lines, read_lines, str_view, target, InfoKeys,
    NameVersion, OutdatedLine, SearchLine,
};
use crate::cache::Cache;
use crate::manager::PackageManager;
use crate::package::{package_views, Capability, Package};
use crate::text::{copy_str, views_of};

verus! {

/// The adapter for uv: its command lines and the readers of its output.
pub struct UvManager {
    cache: Arc<Cache>,
    global: bool,
}

/// How a line of `uv pip list` is read: a name and a version.
pub open spec fn list_reader() -> NameVersion {
    NameVersion { manager: "uv", version_required: true, installed_path: None }
}

/// How a line of `uv pip search` is read.
pub open spec fn search_reader() -> SearchLine {
    SearchLine { manager: "uv", with_description: false }
}

/// How a line of `uv pip list --outdated` is read.
pub open spec fn outdated_reader() -> OutdatedLine {
    OutdatedLine { manager: "uv" }
}

/// The keys of `uv pip show`.
pub open spec fn info_keys() -> InfoKeys {
    InfoKeys {
        version: "Version:",
        description: "Summary:",
        homepage: Some("Home-page:"),
        license: Some("License:"),
    }
}

impl UvManager {
    pub fn new(cache: Arc<Cache>, global: bool) -> (m: UvManager)
        ensures
            m.store() == cache,
            m.global() == global,
    {
        UvManager { cache, global }
    }

    /// Whether the adapter was made for the global installation.
    pub closed spec fn global(&self) -> bool {
        self.global
    }

    /// The cache that the adapter reads and writes.
    pub closed spec fn store(&self) -> Arc<Cache> {
        self.cache
    }

    /// The cache that the adapter reads and writes.
    pub fn cache(&self) -> (r: &Arc<Cache>)
        ensures
            *r == self.store(),
    {
        &self.cache
    }

    /// The packages that the output of `uv pip list` names: two heading
    /// lines, then a name and a version per line.
    pub fn parse_list_output(&self, output: &str) -> (r: Vec<Package>)
        ensures
            package_views(r@) == read_lines(list_reader(), output@, 2),
    {
        parse_lines(
            &NameVersion { manager: "uv", version_required: true, installed_path: None },
            output,
            2,
        )
    }

    /// The packages that the output of `uv pip search` names.
    pub fn parse_search_output(&self, output: &str) -> (r: Vec<Package>)
        ensures
            package_views(r@) == read_lines(search_reader(), output@, 2),
    {
        parse_lines(&SearchLine { manager: "uv", with_description: false }, output, 2)
    }

    /// The package `name` with what the output of `uv pip show` says of it.
    pub fn parse_info_output(&self, name: &str, output: &str) -> (p: Package)
        ensures
            p@ == described(name@, "uv"@, output@, info_keys(), None),
    {
        parse_info(
            name,
            "uv",
            output,
            &InfoKeys {
                version: "Version:",
                description: "Summary:",
                homepage: Some("Home-page:"),
                license: Some("License:"),
            },
            None,
        )
    }

    /// The packages that the output of `uv pip list --outdated` names.
    pub fn parse_outdated_output(&self, output: &str) -> (r: Vec<Package>)
        ensures
            package_views(r@) == read_lines(outdated_reader(), output@, 2),
    {
        parse_lines(&OutdatedLine { manager: "uv" }, output, 2)
    }
}

impl UvManager {
    /// The arguments that list the installed packages.
    pub fn list_args() -> (r: Vec<String>)
        ensures
            views_of(r@) == seq!["pip"@, "list"@],
    {
        let mut r: Vec<String> = Vec::new();
        r.push(copy_str("pip"));
        r.push(copy_str("list"));
        assert(views_of(r@) =~= seq!["pip"@, "list"@]);
        r
    }

    /// The arguments that search for `query`.
    pub fn search_args(query: &str) -> (r: Vec<String>)
        ensures
            views_of(r@) == seq!["pip"@, "search"@, query@],
    {
        let mut r: Vec<String> = Vec::new();
        r.push(copy_str("pip"));
        r.push(copy_str("search"));
        r.push(copy_str(query));
        assert(views_of(r@) =~= seq!["pip"@, "search"@, query@]);
        r
    }

    /// The arguments that describe the package `name`.
    pub fn info_args(name: &str) -> (r: Vec<String>)
        ensures
            views_of(r@) == seq!["pip"@, "show"@, name@],
    {
        let mut r: Vec<String> = Vec::new();
        r.push(copy_str("pip"));
        r.push(copy_str("show"));
        r.push(copy_str(name));
        assert(views_of(r@) =~= seq!["pip"@, "show"@, name@]);
        r
    }

    /// The arguments that install `name`, at `version` where one is given.
    pub fn install_args(name: &str, version: Option<&str>) -> (r: Vec<String>)
        ensures
            views_of(r@) == seq!["pip"@, "install"@, target(name@, str_view(version), "=="@)],
    {
        let mut r: Vec<String> = Vec::new();
        r.push(copy_str("pip"));
        r.push(copy_str("install"));
        r.push(install_target(name, version, "=="));
        assert(views_of(r@) =~= seq!["pip"@, "install"@, target(name@, str_view(version), "=="@)]);
        r
    }

    /// The arguments that upgrade `name`.
    pub fn upgrade_args(name: &str) -> (r: Vec<String>)
        ensures
            views_of(r@) == seq!["pip"@, "install"@, "--upgrade"@, name@],
    {
        let mut r: Vec<String> = Vec::new();
        r.push(copy_str("pip"));
        r.push(copy_str("install"));
        r.push(copy_str("--upgrade"));
        r.push(copy_str(name));
        assert(views_of(r@) =~= seq!["pip"@, "install"@, "--upgrade"@, name@]);
        r
    }

    /// The arguments that uninstall `name`.
    pub fn uninstall_args(name: &str, force: bool) -> (r: Vec<String>)
        ensures
            views_of(r@) == seq!["pip"@, "uninstall"@] + (if force {
                seq!["--yes"@]
            } else {
                Seq::empty()
            }) + seq![name@],
    {
        let mut r: Vec<String> = Vec::new();
        r.push(copy_str("pip"));
        r.push(copy_str("uninstall"));
        if force {
            r.push(copy_str("--yes"));
        }
        r.push(copy_str(name));
        assert(views_of(r@) =~= seq!["pip"@, "uninstall"@] + (if force {
                seq!["--yes"@]
            } else {
                Seq::empty()
            }) + seq![name@]);
        r
    }

    /// The arguments that list the outdated packages.
    pub fn outdated_args() -> (r: Vec<String>)
        ensures
            views_of(r@) == seq!["pip"@, "list"@, "--outdated"@],
    {
        let mut r: Vec<String> = Vec::new();
        r.push(copy_str("pip"));
        r.push(copy_str("list"));
        r.push(copy_str("--outdated"));
        assert(views_of(r@) =~= seq!["pip"@, "list"@, "--outdated"@]);
        r
    }
}

impl PackageManager for UvManager {
    open spec fn title(&self) -> Seq<char> {
        "uv"@
    }

    open spec fn key(&self) -> Seq<char> {
        "uv"@
    }

    open spec fn advertised(&self) -> Seq<Capability> {
        seq![Capability::ListInstalled, Capability::SearchRemote, Capability::VersionSelection]
    }

    fn name(&self) -> (r: &str) {
        "uv"
    }

    fn cache_key(&self) -> (r: &str) {
        "uv"
    }

    fn capabilities(&self) -> (r: Vec<Capability>) {
        let mut v: Vec<Capability> = Vec::new();
        v.push(Capability::ListInstalled);
        v.push(Capability::SearchRemote);
        v.push(Capability::VersionSelection);
        assert(v@ =~= self.advertised());
        v
    }
}

} // verus!
