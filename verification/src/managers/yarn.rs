//! The adapter for yarn.

use std::sync::Arc;
use vstd::prelude::*;
use crate::adapter::{
    build_cache_key, digest_of, first_line_path, first_path, install_target, parse_lines,
    read_lines, scope_key, str_view, target, with_flag, LineReader,
};
use crate::cache::{join_path, path_join, Cache};
use crate::codec::{required_text, text_at};
use crate::documents::{
    decoded, decoded_one, failure_prefix, flat_search, outdated_found, read_flat_search,
    read_outdated_output, read_output,
};
use crate::error::BoxyError;
use crate::json::{parsed, read_document, Json};
use crate::manager::PackageManager;
use crate::package::{bare_package, package_views, Capability, Package, PackageView};
use crate::text::{copy_str, opt_view, same_text, string_of, views_of};

verus! {

/// The adapter for yarn: its command lines and the readers of its output.
pub struct YarnManager {
    cache: Arc<Cache>,
    global: bool,
    workdir: Option<String>,
    cache_key: String,
}

/// Where yarn keeps globally installed packages, as the listing shows it.
pub const GLOBAL_PATH: &'static str = "~/.yarn/global";

/// The path that the listing shows for an installation.
pub open spec fn shown_path(global: bool) -> Option<Seq<char>> {
    if global {
        Some(GLOBAL_PATH@)
    } else {
        None
    }
}

/// The package that a document of the listing stands for: one of the type
/// `tree` with a name under `data`. The version is `unknown` where the
/// document names none.
pub open spec fn tree_package(doc: Json, global: bool) -> Option<PackageView> {
    if text_at(doc, "type"@) != Some("tree"@) {
        None
    } else {
        match doc.field("data"@) {
            Some(data) => match text_at(data, "name"@) {
                Some(name) => Some(
                    PackageView {
                        installed_path: shown_path(global),
                        ..bare_package(
                            name,
                            match text_at(data, "version"@) {
                                Some(v) => v,
                                None => "unknown"@,
                            },
                            "yarn"@,
                        )
                    },
                ),
                None => None,
            },
            None => None,
        }
    }
}

/// Reads a line of `yarn list --json`: a JSON document.
pub struct TreeLine {
    pub global: bool,
}

impl LineReader for TreeLine {
    open spec fn reads(&self, line: Seq<char>) -> Option<PackageView> {
        match parsed(line) {
            Ok(doc) => tree_package(doc, self.global),
            Err(_) => None,
        }
    }

    fn read(&self, line: &Vec<char>) -> (r: Option<Package>) {
        let text = string_of(line);
        let doc = match read_document(text.as_str()) {
            Ok(doc) => doc,
            Err(_) => {
                return None;
            },
        };
        match required_text(&doc, "type") {
            Some(kind) => {
                if !same_text(kind.as_str(), "tree") {
                    return None;
                }
            },
            None => {
                return None;
            },
        }
        let data = match doc.get("data") {
            Some(data) => data,
            None => {
                return None;
            },
        };
        match required_text(data, "name") {
            Some(name) => {
                let version = match required_text(data, "version") {
                    Some(v) => v,
                    None => copy_str("unknown"),
                };
                let mut p = Package::bare(name, version, copy_str("yarn"));
                if self.global {
                    p.installed_path = Some(copy_str(GLOBAL_PATH));
                }
                Some(p)
            },
            None => None,
        }
    }
}

/// The package `name` with what the document of `yarn info` says of it.
/// The version is `unknown` where the document names none.
pub open spec fn described(doc: Json, name: Seq<char>, global: bool) -> PackageView {
    PackageView {
        description: text_at(doc, "description"@),
        homepage: text_at(doc, "homepage"@),
        license: text_at(doc, "license"@),
        installed_path: shown_path(global),
        latest_version: text_at(doc, "version"@),
        ..bare_package(
            match text_at(doc, "name"@) {
                Some(n) => n,
                None => name,
            },
            match text_at(doc, "version"@) {
                Some(v) => v,
                None => "unknown"@,
            },
            "yarn"@,
        )
    }
}

impl YarnManager {
    pub fn new(cache: Arc<Cache>, global: bool, workdir: Option<String>) -> (m: YarnManager)
        ensures
            m.store() == cache,
            m.directory() == workdir,
            m.global() == (global),
            m.key() == scope_key("yarn"@, m.global(), digest_of(workdir)),
    {
        let cache_key = build_cache_key("yarn", global, &workdir);
        YarnManager { cache, global, workdir, cache_key }
    }

    /// Whether the adapter works on the global installation.
    pub closed spec fn global(&self) -> bool {
        self.global
    }

    /// The cache that the adapter reads and writes.
    pub closed spec fn store(&self) -> Arc<Cache> {
        self.cache
    }

    /// The cache that the adapter reads and writes.
    pub fn cache(&self) -> (r: &Arc<Cache>)
        ensures
            *r == self.store(),
    {
        &self.cache
    }

    /// Whether the adapter works on the global installation.
    pub fn is_global(&self) -> (r: bool)
        ensures
            r == self.global(),
    {
        self.global
    }

    /// The working directory of a local installation.
    pub closed spec fn directory(&self) -> Option<String> {
        self.workdir
    }

    /// The working directory of a local installation.
    pub fn workdir(&self) -> (r: &Option<String>)
        ensures
            *r == self.directory(),
    {
        &self.workdir
    }

    /// The command line for `args`: `global` goes first for the global
    /// installation.
    pub fn command_line(&self, args: Vec<String>) -> (r: Vec<String>)
        ensures
            views_of(r@) == if self.global() {
                seq!["global"@] + views_of(args@)
            } else {
                views_of(args@)
            },
    {
        with_flag(self.global, "global", args)
    }

    /// The root of the global installation that the output of `yarn dir`
    /// names: `node_modules` below its first line.
    pub fn parse_dir_output(output: &str) -> (r: Option<String>)
        ensures
            opt_view(r) == match first_path(output@) {
                Some(dir) => Some(path_join(dir, "node_modules"@)),
                None => None,
            },
    {
        match first_line_path(output) {
            Some(dir) => Some(join_path(dir.as_str(), "node_modules")),
            None => None,
        }
    }

    /// The root of a local installation: `node_modules` below `dir`.
    pub fn local_root(dir: &str) -> (r: String)
        ensures
            r@ == path_join(dir@, "node_modules"@),
    {
        join_path(dir, "node_modules")
    }

    /// The packages that the output of `yarn list --json` names: one JSON
    /// document per line.
    pub fn parse_list_output(&self, output: &str) -> (r: Vec<Package>)
        ensures
            package_views(r@) == read_lines(TreeLine { global: self.global() }, output@, 0),
    {
        parse_lines(&TreeLine { global: self.global }, output, 0)
    }

    /// The packages that the output of `yarn search --json` names.
    pub fn parse_search_output(&self, output: &str) -> (r: Result<Vec<Package>, BoxyError>)
        ensures
            decoded(
                r,
                output@,
                failure_prefix("yarn"@, "search"@),
                |doc: Json| Some(flat_search(doc, "yarn"@)),
            ),
    {
        match read_output(output, "yarn", "search") {
            Err(e) => Err(e),
            Ok(doc) => Ok(read_flat_search(&doc, "yarn")),
        }
    }

    /// The package `name` with what the output of `yarn info --json` says
    /// of it.
    pub fn parse_info_output(&self, name: &str, output: &str) -> (r: Result<Package, BoxyError>)
        ensures
            decoded_one(
                r,
                output@,
                failure_prefix("yarn"@, "info"@),
                |doc: Json| Some(described(doc, name@, self.global())),
            ),
    {
        let doc = match read_output(output, "yarn", "info") {
            Err(e) => {
                return Err(e);
            },
            Ok(doc) => doc,
        };
        let version = required_text(&doc, "version");
        let mut p = Package::bare(
            match required_text(&doc, "name") {
                Some(n) => n,
                None => copy_str(name),
            },
            match &version {
                Some(v) => v.clone(),
                None => copy_str("unknown"),
            },
            copy_str("yarn"),
        );
        p.description = required_text(&doc, "description");
        p.homepage = required_text(&doc, "homepage");
        p.license = required_text(&doc, "license");
        if self.global {
            p.installed_path = Some(copy_str(GLOBAL_PATH));
        }
        p.latest_version = version;
        Ok(p)
    }

    /// The packages that the output of `yarn outdated --json` names.
    pub fn parse_outdated_output(&self, output: &str) -> (r: Result<Vec<Package>, BoxyError>)
        ensures
            outdated_found(r, output@, "yarn"@, shown_path(self.global())),
    {
        read_outdated_output(
            output,
            "yarn",
            if self.global {
                Some(GLOBAL_PATH)
            } else {
                None
            },
        )
    }
}

impl YarnManager {
    /// The arguments that ask for the global directory.
    pub fn dir_args() -> (r: Vec<String>)
        ensures
            views_of(r@) == seq!["dir"@],
    {
        let mut r: Vec<String> = Vec::new();
        r.push(copy_str("dir"));
        assert(views_of(r@) =~= seq!["dir"@]);
        r
    }

    /// The arguments that list the installed packages, as JSON lines.
    pub fn list_args() -> (r: Vec<String>)
        ensures
            views_of(r@) == seq!["list"@, "--json"@],
    {
        let mut r: Vec<String> = Vec::new();
        r.push(copy_str("list"));
        r.push(copy_str("--json"));
        assert(views_of(r@) =~= seq!["list"@, "--json"@]);
        r
    }

    /// The arguments that search for `query`, as JSON.
    pub fn search_args(query: &str) -> (r: Vec<String>)
        ensures
            views_of(r@) == seq!["search"@, "--json"@, query@],
    {
        let mut r: Vec<String> = Vec::new();
        r.push(copy_str("search"));
        r.push(copy_str("--json"));
        r.push(copy_str(query));
        assert(views_of(r@) =~= seq!["search"@, "--json"@, query@]);
        r
    }

    /// The arguments that describe the package `name`, as JSON.
    pub fn info_args(name: &str) -> (r: Vec<String>)
        ensures
            views_of(r@) == seq!["info"@, "--json"@, name@],
    {
        let mut r: Vec<String> = Vec::new();
        r.push(copy_str("info"));
        r.push(copy_str("--json"));
        r.push(copy_str(name));
        assert(views_of(r@) =~= seq!["info"@, "--json"@, name@]);
        r
    }

    /// The arguments that add `name`, at `version` where one is given.
    pub fn install_args(name: &str, version: Option<&str>) -> (r: Vec<String>)
        ensures
            views_of(r@) == seq!["add"@, target(name@, str_view(version), "@"@)],
    {
        let mut r: Vec<String> = Vec::new();
        r.push(copy_str("add"));
        r.push(install_target(name, version, "@"));
        assert(views_of(r@) =~= seq!["add"@, target(name@, str_view(version), "@"@)]);
        r
    }

    /// The arguments that upgrade `name`.
    pub fn upgrade_args(name: &str) -> (r: Vec<String>)
        ensures
            views_of(r@) == seq!["upgrade"@, name@],
    {
        let mut r: Vec<String> = Vec::new();
        r.push(copy_str("upgrade"));
        r.push(copy_str(name));
        assert(views_of(r@) =~= seq!["upgrade"@, name@]);
        r
    }

    /// The arguments that remove `name`.
    pub fn uninstall_args(name: &str, force: bool) -> (r: Vec<String>)
        ensures
            views_of(r@) == seq!["remove"@, name@] + (if force {
                seq!["--force"@]
            } else {
                Seq::empty()
            }),
    {
        let mut r: Vec<String> = Vec::new();
        r.push(copy_str("remove"));
        r.push(copy_str(name));
        if force {
            r.push(copy_str("--force"));
        }
        assert(views_of(r@) =~= seq!["remove"@, name@] + (if force {
                seq!["--force"@]
            } else {
                Seq::empty()
            }));
        r
    }

    /// The arguments that list the outdated packages, as JSON.
    pub fn outdated_args() -> (r: Vec<String>)
        ensures
            views_of(r@) == seq!["outdated"@, "--json"@],
    {
        let mut r: Vec<String> = Vec::new();
        r.push(copy_str("outdated"));
        r.push(copy_str("--json"));
        assert(views_of(r@) =~= seq!["outdated"@, "--json"@]);
        r
    }
}

impl PackageManager for YarnManager {
    open spec fn title(&self) -> Seq<char> {
        "yarn"@
    }

    closed spec fn key(&self) -> Seq<char> {
        self.cache_key@
    }

    open spec fn advertised(&self) -> Seq<Capability> {
        seq![
            Capability::ListInstalled,
            Capability::SearchRemote,
            Capability::QueryDependencies,
            Capability::VersionSelection,
        ]
    }

    fn name(&self) -> (r: &str) {
        "yarn"
    }

    fn cache_key(&self) -> (r: &str) {
        self.cache_key.as_str()
    }

    fn capabilities(&self) -> (r: Vec<Capability>) {
        let mut v: Vec<Capability> = Vec::new();
        v.push(Capability::ListInstalled);
        v.push(Capability::SearchRemote);
        v.push(Capability::QueryDependencies);
        v.push(Capability::VersionSelection);
        assert(v@ =~= self.advertised());
        v
    }
}

} // verus!
