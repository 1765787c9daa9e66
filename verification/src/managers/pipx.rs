//! The adapter for pipx.

use std::sync::Arc;
use vstd::prelude::*;
use crate::adapter::{
    code_of, described, install_target, opt_package, outdated_entry, outdated_from_info, parse_info,
    parse_lines, read_lines, str_view, target, InfoKeys, NameVersion, SearchLine,
};
use crate::cache::Cache;
use crate::error::BoxyError;
use crate::manager::PackageManager;
use crate::package::{package_views, Capability, Package, PackageView};
use crate::text::{copy_str, join2, views_of};

verus! {

/// The adapter for pipx: its command lines and the readers of its output.
pub struct PipxManager {
    cache: Arc<Cache>,
}

/// How a line of `pipx list` is read: a name, and a version where there
/// is one.
pub open spec fn list_reader() -> NameVersion {
    NameVersion { manager: "pipx", version_required: false, installed_path: None }
}

/// How a line of `pip search` is read for pipx.
pub open spec fn search_reader() -> SearchLine {
    SearchLine { manager: "pipx", with_description: false }
}

/// The keys of `pip show` that pipx reads.
pub open spec fn info_keys() -> InfoKeys {
    InfoKeys { version: "Version:", description: "Summary:", homepage: None, license: None }
}

impl PipxManager {
    pub fn new(cache: Arc<Cache>) -> (m: PipxManager)
        ensures
            m.store() == cache,
    {
        PipxManager { cache }
    }

    /// The cache that the adapter reads and writes.
    pub closed spec fn store(&self) -> Arc<Cache> {
        self.cache
    }

    /// The cache that the adapter reads and writes.
    pub fn cache(&self) -> (r: &Arc<Cache>)
        ensures
            *r == self.store(),
    {
        &self.cache
    }

    /// The program that searches and describes packages for pipx.
    pub fn lookup_program() -> (r: &'static str)
        ensures
            r@ == "pip"@,
    {
        "pip"
    }

    /// The packages that the output of `pipx list` names: a heading line,
    /// then a name per line.
    pub fn parse_list_output(&self, output: &str) -> (r: Vec<Package>)
        ensures
            package_views(r@) == read_lines(list_reader(), output@, 1),
    {
        parse_lines(
            &NameVersion { manager: "pipx", version_required: false, installed_path: None },
            output,
            1,
        )
    }

    /// The packages that a run of `pip search` names: none where the run
    /// failed.
    pub fn parse_search_output(&self, success: bool, output: &str) -> (r: Vec<Package>)
        ensures
            package_views(r@) == if success {
                read_lines(search_reader(), output@, 2)
            } else {
                Seq::empty()
            },
    {
        if success {
            parse_lines(&SearchLine { manager: "pipx", with_description: false }, output, 2)
        } else {
            let r: Vec<Package> = Vec::new();
            assert(package_views(r@) =~= Seq::<PackageView>::empty());
            r
        }
    }

    /// The package `name` with what a run of `pip show` says of it. A run
    /// that failed is a failed command.
    pub fn parse_info_output(&self, name: &str, success: bool, code: Option<i32>, output: &str)
        -> (r: Result<Package, BoxyError>)
        ensures
            success ==> (r matches Ok(p) && p@ == described(
                name@,
                "pipx"@,
                output@,
                info_keys(),
                None,
            )),
            !success ==> (r matches Err(BoxyError::CommandFailed { manager, command, exit_code })
                && manager@ == "pipx"@ && command@ == "pip show "@ + name@ && exit_code
                == code_of(code)),
    {
        if success {
            Ok(
                parse_info(
                    name,
                    "pipx",
                    output,
                    &InfoKeys {
                        version: "Version:",
                        description: "Summary:",
                        homepage: None,
                        license: None,
                    },
                    None,
                ),
            )
        } else {
            Err(
                BoxyError::CommandFailed {
                    manager: copy_str("pipx"),
                    command: join2("pip show ", name),
                    exit_code: match code {
                        Some(c) => c,
                        None => -1,
                    },
                },
            )
        }
    }

    /// What the details of an installed package say of it: it is outdated
    /// where they name a latest version other than the installed one.
    pub fn outdated_entry(&self, installed: &Package, info: &Package) -> (r: Option<Package>)
        ensures
            opt_package(r) == outdated_entry(installed@, info@, "pipx"@),
    {
        outdated_from_info(installed, info, "pipx")
    }
}

impl PipxManager {
    /// The arguments that list the installed applications.
    pub fn list_args() -> (r: Vec<String>)
        ensures
            views_of(r@) == seq!["list"@],
    {
        let mut r: Vec<String> = Vec::new();
        r.push(copy_str("list"));
        assert(views_of(r@) =~= seq!["list"@]);
        r
    }

    /// The arguments with which pip searches for `query`.
    pub fn search_args(query: &str) -> (r: Vec<String>)
        ensures
            views_of(r@) == seq!["search"@, query@],
    {
        let mut r: Vec<String> = Vec::new();
        r.push(copy_str("search"));
        r.push(copy_str(query));
        assert(views_of(r@) =~= seq!["search"@, query@]);
        r
    }

    /// The arguments with which pip describes the package `name`.
    pub fn info_args(name: &str) -> (r: Vec<String>)
        ensures
            views_of(r@) == seq!["show"@, name@],
    {
        let mut r: Vec<String> = Vec::new();
        r.push(copy_str("show"));
        r.push(copy_str(name));
        assert(views_of(r@) =~= seq!["show"@, name@]);
        r
    }

    /// The arguments that install `name`, at `version` where one is given.
    pub fn install_args(name: &str, version: Option<&str>) -> (r: Vec<String>)
        ensures
            views_of(r@) == seq!["install"@, target(name@, str_view(version), "=="@)],
    {
        let mut r: Vec<String> = Vec::new();
        r.push(copy_str("install"));
        r.push(install_target(name, version, "=="));
        assert(views_of(r@) =~= seq!["install"@, target(name@, str_view(version), "=="@)]);
        r
    }

    /// The arguments that upgrade `name`.
    pub fn upgrade_args(name: &str) -> (r: Vec<String>)
        ensures
            views_of(r@) == seq!["upgrade"@, name@],
    {
        let mut r: Vec<String> = Vec::new();
        r.push(copy_str("upgrade"));
        r.push(copy_str(name));
        assert(views_of(r@) =~= seq!["upgrade"@, name@]);
        r
    }

    /// The arguments that uninstall `name`.
    pub fn uninstall_args(name: &str, force: bool) -> (r: Vec<String>)
        ensures
            views_of(r@) == seq!["uninstall"@] + (if force {
                seq!["--force"@]
            } else {
                Seq::empty()
            }) + seq![name@],
    {
        let mut r: Vec<String> = Vec::new();
        r.push(copy_str("uninstall"));
        if force {
            r.push(copy_str("--force"));
        }
        r.push(copy_str(name));
        assert(views_of(r@) =~= seq!["uninstall"@] + (if force {
                seq!["--force"@]
            } else {
                Seq::empty()
            }) + seq![name@]);
        r
    }
}

impl PackageManager for PipxManager {
    open spec fn title(&self) -> Seq<char> {
        "pipx"@
    }

    open spec fn key(&self) -> Seq<char> {
        "pipx"@
    }

    open spec fn advertised(&self) -> Seq<Capability> {
        seq![Capability::ListInstalled, Capability::VersionSelection]
    }

    fn name(&self) -> (r: &str) {
        "pipx"
    }

    fn cache_key(&self) -> (r: &str) {
        "pipx"
    }

    fn capabilities(&self) -> (r: Vec<Capability>) {
        let mut v: Vec<Capability> = Vec::new();
        v.push(Capability::ListInstalled);
        v.push(Capability::VersionSelection);
        assert(v@ =~= self.advertised());
        v
    }
}

} // verus!
