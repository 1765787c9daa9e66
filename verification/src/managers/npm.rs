//! The adapter for npm.

use std::sync::Arc;
use vstd::prelude::*;
use crate::adapter::{
    build_cache_key, digest_of, first_line_path, first_path, install_target, owned, scope_key,
    str_view, target, with_flag,
};
use crate::cache::Cache;
use crate::codec::{required_text, text_at};
use crate::documents::{
    decoded, decoded_one, failure_prefix, form_error, outdated_found, parsed_is, read_info_output,
    read_outdated_output, read_output, read_search_items, registry_info, search_items,
};
use crate::error::BoxyError;
use crate::json::Json;
use crate::manager::PackageManager;
use crate::package::{bare_package, package_views, Capability, Package, PackageView};
use crate::text::{
    chars_of, copy_str, opt_view, same_chars, string_of, strip_leading, strip_start, trim, trimmed,
    views_of,
};

verus! {

/// Where npm installs to and lists from.
#[derive(Debug, Clone, Copy, PartialEq, Eq, Structural)]
pub enum NpmScope {
    Global,
    Local,
}

/// The adapter for npm: its command lines and the readers of its output.
pub struct NpmManager {
    cache: Arc<Cache>,
    scope: NpmScope,
    workdir: Option<String>,
    cache_key: String,
}

/// Where npm keeps globally installed packages, as the listing shows it.
pub const GLOBAL_PATH: &'static str = "/usr/local/lib/node_modules";

/// The path that the listing shows for an installation.
pub open spec fn shown_path(global: bool) -> Option<Seq<char>> {
    if global {
        Some(GLOBAL_PATH@)
    } else {
        None
    }
}

/// The package that an entry of the `dependencies` of `npm list` stands
/// for: an object with the text `version`. A leading `^` or `~` is no part
/// of the version.
pub open spec fn dependency(name: Seq<char>, value: Json, global: bool) -> Option<PackageView> {
    match (value is Object, text_at(value, "version"@)) {
        (true, Some(version)) => Some(
            PackageView {
                installed_path: shown_path(global),
                ..bare_package(name, strip_start(version, "^~"@), "npm"@)
            },
        ),
        _ => None,
    }
}

/// The packages that the first `n` entries stand for; none where one of
/// them stands for no package.
pub open spec fn dependencies(entries: Seq<(String, Json)>, global: bool, n: int) -> Option<
    Seq<PackageView>,
>
    decreases n,
{
    if n <= 0 {
        Some(Seq::empty())
    } else {
        match (
            dependencies(entries, global, n - 1),
            dependency(entries[n - 1].0@, entries[n - 1].1, global),
        ) {
            (Some(before), Some(p)) => Some(before.push(p)),
            _ => None,
        }
    }
}

/// Where the first `n` entries stand for no list, no longer prefix does.
pub proof fn lemma_dependencies_none(entries: Seq<(String, Json)>, global: bool, n: int, m: int)
    requires
        0 <= n <= m,
        dependencies(entries, global, n) is None,
    ensures
        dependencies(entries, global, m) is None,
    decreases m - n,
{
    if n < m {
        lemma_dependencies_none(entries, global, n, m - 1);
    }
}

/// The packages that the document of `npm list` names: those under
/// `dependencies`, none where that entry is missing or null.
pub open spec fn listed(doc: Json, global: bool) -> Option<Seq<PackageView>> {
    if !(doc is Object) {
        None
    } else {
        match doc.field("dependencies"@) {
            None => Some(Seq::empty()),
            Some(Json::Null) => Some(Seq::empty()),
            Some(Json::Object(entries)) => dependencies(entries@, global, entries@.len() as int),
            Some(_) => None,
        }
    }
}

/// The packages that the document of `npm search` names: the items of the
/// document where it is an array, else those under `objects`, else those
/// under `results`.
pub open spec fn searched(doc: Json) -> Seq<PackageView> {
    match doc.items() {
        Some(items) => search_items(items, "npm"@, true, items.len() as int),
        None => match doc.field("objects"@) {
            Some(Json::Array(items)) => search_items(items@, "npm"@, true, items@.len() as int),
            _ => match doc.field("results"@) {
                Some(Json::Array(items)) => search_items(
                    items@,
                    "npm"@,
                    true,
                    items@.len() as int,
                ),
                _ => Seq::empty(),
            },
        },
    }
}

/// The package that an entry of the dependencies of a package stands for:
/// a text, the version.
pub open spec fn required(name: Seq<char>, value: Json) -> Option<PackageView> {
    match value.text() {
        Some(version) => Some(bare_package(name, strip_start(version, "^~"@), "npm"@)),
        None => None,
    }
}

/// The packages that the first `n` entries of the dependencies of a
/// package stand for; none where one of them is no text.
pub open spec fn requirements(entries: Seq<(String, Json)>, n: int) -> Option<Seq<PackageView>>
    decreases n,
{
    if n <= 0 {
        Some(Seq::empty())
    } else {
        match (requirements(entries, n - 1), required(entries[n - 1].0@, entries[n - 1].1)) {
            (Some(before), Some(p)) => Some(before.push(p)),
            _ => None,
        }
    }
}

/// Where the first `n` entries stand for no list, no longer prefix does.
pub proof fn lemma_requirements_none(entries: Seq<(String, Json)>, n: int, m: int)
    requires
        0 <= n <= m,
        requirements(entries, n) is None,
    ensures
        requirements(entries, m) is None,
    decreases m - n,
{
    if n < m {
        lemma_requirements_none(entries, n, m - 1);
    }
}

/// The packages that the document of `npm view .. dependencies` names.
pub open spec fn required_by(doc: Json) -> Option<Seq<PackageView>> {
    match doc {
        Json::Object(entries) => requirements(entries@, entries@.len() as int),
        _ => None,
    }
}

impl NpmManager {
    pub fn new(cache: Arc<Cache>, scope: NpmScope, workdir: Option<String>) -> (m: NpmManager)
        ensures
            m.store() == cache,
            m.directory() == workdir,
            m.global() == (scope == NpmScope::Global),
            m.key() == scope_key("npm"@, m.global(), digest_of(workdir)),
    {
        let global = scope == NpmScope::Global;
        let cache_key = build_cache_key("npm", global, &workdir);
        NpmManager { cache, scope, workdir, cache_key }
    }

    /// Whether the adapter works on the global installation.
    pub closed spec fn global(&self) -> bool {
        self.scope == NpmScope::Global
    }

    /// The cache that the adapter reads and writes.
    pub closed spec fn store(&self) -> Arc<Cache> {
        self.cache
    }

    /// The cache that the adapter reads and writes.
    pub fn cache(&self) -> (r: &Arc<Cache>)
        ensures
            *r == self.store(),
    {
        &self.cache
    }

    /// Whether the adapter works on the global installation.
    pub fn is_global(&self) -> (r: bool)
        ensures
            r == self.global(),
    {
        self.scope == NpmScope::Global
    }

    /// The working directory of a local installation.
    pub closed spec fn directory(&self) -> Option<String> {
        self.workdir
    }

    /// The working directory of a local installation.
    pub fn workdir(&self) -> (r: &Option<String>)
        ensures
            *r == self.directory(),
    {
        &self.workdir
    }

    /// The key of the cache entry.
    pub fn cache_key_value(&self) -> (r: &str)
        ensures
            r@ == self.key(),
    {
        self.cache_key.as_str()
    }

    /// The command line for `args`: `-g` goes first for the global
    /// installation.
    pub fn command_line(&self, args: Vec<String>) -> (r: Vec<String>)
        ensures
            views_of(r@) == if self.global() {
                seq!["-g"@] + views_of(args@)
            } else {
                views_of(args@)
            },
    {
        with_flag(self.is_global(), "-g", args)
    }

    /// The arguments that ask for the root of the installation.
    pub fn root_args(&self) -> (r: Vec<String>)
        ensures
            views_of(r@) == if self.global() {
                seq!["root"@, "-g"@]
            } else {
                seq!["root"@]
            },
    {
        let mut r: Vec<String> = Vec::new();
        r.push(copy_str("root"));
        if self.is_global() {
            r.push(copy_str("-g"));
        }
        assert(views_of(r@) =~= if self.global() {
            seq!["root"@, "-g"@]
        } else {
            seq!["root"@]
        });
        r
    }

    /// The root of the installation that the output of `npm root` names.
    pub fn parse_root_output(output: &str) -> (r: Option<String>)
        ensures
            opt_view(r) == first_path(output@),
    {
        first_line_path(output)
    }

    fn shown(&self) -> (r: Option<&'static str>)
        ensures
            str_view(r) == shown_path(self.global()),
    {
        if self.is_global() {
            Some(GLOBAL_PATH)
        } else {
            None
        }
    }

    /// The packages that the output of `npm list --json` names.
    pub fn parse_list_output(&self, output: &str) -> (r: Result<Vec<Package>, BoxyError>)
        ensures
            decoded(
                r,
                output@,
                failure_prefix("npm"@, "list"@),
                |doc: Json| listed(doc, self.global()),
            ),
    {
        let doc = match read_output(output, "npm", "list") {
            Err(e) => {
                return Err(e);
            },
            Ok(doc) => doc,
        };
        match &doc {
            Json::Object(_) => {},
            _ => {
                return Err(form_error("npm", "list"));
            },
        }
        let entries = match doc.get("dependencies") {
            None => {
                let r: Vec<Package> = Vec::new();
                assert(package_views(r@) =~= Seq::<PackageView>::empty());
                return Ok(r);
            },
            Some(Json::Null) => {
                let r: Vec<Package> = Vec::new();
                assert(package_views(r@) =~= Seq::<PackageView>::empty());
                return Ok(r);
            },
            Some(Json::Object(entries)) => entries,
            Some(_) => {
                return Err(form_error("npm", "list"));
            },
        };
        let mut out: Vec<Package> = Vec::new();
        let mut i: usize = 0;
        assert(package_views(out@) =~= Seq::<PackageView>::empty());
        while i < entries.len()
            invariant
                i <= entries.len(),
                parsed_is(output@, doc),
                doc is Object,
                doc.field("dependencies"@) == Some(Json::Object(*entries)),
                dependencies(entries@, self.global(), i as int) == Some(package_views(out@)),
            decreases entries.len() - i,
        {
            let value = &entries[i].1;
            let version = match value {
                Json::Object(_) => required_text(value, "version"),
                _ => None,
            };
            match version {
                Some(v) => {
                    let stripped = strip_leading(&chars_of(v.as_str()), "^~");
                    let mut p = Package::bare(
                        entries[i].0.clone(),
                        string_of(&stripped),
                        copy_str("npm"),
                    );
                    p.installed_path = owned(self.shown());
                    let ghost before = package_views(out@);
                    out.push(p);
                    assert(package_views(out@) =~= before.push(p@));
                },
                None => {
                    proof {
                        lemma_dependencies_none(
                            entries@,
                            self.global(),
                            i + 1,
                            entries@.len() as int,
                        );
                    }
                    return Err(form_error("npm", "list"));
                },
            }
            i = i + 1;
        }
        Ok(out)
    }

    /// The packages that the output of `npm search --json` names.
    pub fn parse_search_output(&self, output: &str) -> (r: Result<Vec<Package>, BoxyError>)
        ensures
            decoded(
                r,
                output@,
                failure_prefix("npm"@, "search"@),
                |doc: Json| Some(searched(doc)),
            ),
    {
        match read_output(output, "npm", "search") {
            Err(e) => Err(e),
            Ok(doc) => Ok(NpmManager::parse_search_packages(&doc)),
        }
    }

    /// The packages that the document of `npm search` names.
    pub fn parse_search_packages(doc: &Json) -> (r: Vec<Package>)
        ensures
            package_views(r@) == searched(*doc),
    {
        if let Some(items) = doc.as_array() {
            return read_search_items(items, "npm", true);
        }
        if let Some(Json::Array(items)) = doc.get("objects") {
            return read_search_items(items, "npm", true);
        }
        if let Some(Json::Array(items)) = doc.get("results") {
            return read_search_items(items, "npm", true);
        }
        let r: Vec<Package> = Vec::new();
        assert(package_views(r@) =~= Seq::<PackageView>::empty());
        r
    }

    /// The package that the output of `npm info --json` describes.
    pub fn parse_info_output(&self, output: &str) -> (r: Result<Package, BoxyError>)
        ensures
            decoded_one(
                r,
                output@,
                failure_prefix("npm"@, "info"@),
                |doc: Json| registry_info(doc, "npm"@, shown_path(self.global())),
            ),
    {
        read_info_output(output, "npm", self.shown())
    }

    /// The packages that the output of `npm outdated --json` names.
    pub fn parse_outdated_output(&self, output: &str) -> (r: Result<Vec<Package>, BoxyError>)
        ensures
            outdated_found(r, output@, "npm"@, shown_path(self.global())),
    {
        read_outdated_output(output, "npm", self.shown())
    }

    /// The packages that the output of `npm view .. dependencies --json`
    /// names: none for an output that is blank or `null`.
    pub fn parse_dependencies_output(&self, output: &str) -> (r: Result<Vec<Package>, BoxyError>)
        ensures
            if trim(output@).len() == 0 || trim(output@) == "null"@ {
                r matches Ok(v) && v@.len() == 0
            } else {
                decoded(
                    r,
                    output@,
                    failure_prefix("npm"@, "dependencies"@),
                    |doc: Json| required_by(doc),
                )
            },
    {
        let t = trimmed(&chars_of(output));
        if t.len() == 0 || same_chars(&t, &chars_of("null")) {
            return Ok(Vec::new());
        }
        let doc = match read_output(output, "npm", "dependencies") {
            Err(e) => {
                return Err(e);
            },
            Ok(doc) => doc,
        };
        let entries = match &doc {
            Json::Object(entries) => entries,
            _ => {
                return Err(form_error("npm", "dependencies"));
            },
        };
        let mut out: Vec<Package> = Vec::new();
        let mut i: usize = 0;
        assert(package_views(out@) =~= Seq::<PackageView>::empty());
        while i < entries.len()
            invariant
                i <= entries.len(),
                parsed_is(output@, doc),
                doc == Json::Object(*entries),
                trim(output@).len() != 0 && trim(output@) != "null"@,
                requirements(entries@, i as int) == Some(package_views(out@)),
            decreases entries.len() - i,
        {
            match entries[i].1.as_str() {
                Some(v) => {
                    let stripped = strip_leading(&chars_of(v), "^~");
                    let p = Package::bare(
                        entries[i].0.clone(),
                        string_of(&stripped),
                        copy_str("npm"),
                    );
                    let ghost before = package_views(out@);
                    out.push(p);
                    assert(package_views(out@) =~= before.push(p@));
                },
                None => {
                    proof {
                        lemma_requirements_none(entries@, i + 1, entries@.len() as int);
                    }
                    return Err(form_error("npm", "dependencies"));
                },
            }
            i = i + 1;
        }
        Ok(out)
    }
}

impl NpmManager {
    /// The arguments that list the installed packages, as JSON.
    pub fn list_args() -> (r: Vec<String>)
        ensures
            views_of(r@) == seq!["list"@, "--json"@],
    {
        let mut r: Vec<String> = Vec::new();
        r.push(copy_str("list"));
        r.push(copy_str("--json"));
        assert(views_of(r@) =~= seq!["list"@, "--json"@]);
        r
    }

    /// The arguments that search for `query`, as JSON.
    pub fn search_args(query: &str) -> (r: Vec<String>)
        ensures
            views_of(r@) == seq!["search"@, "--json"@, query@],
    {
        let mut r: Vec<String> = Vec::new();
        r.push(copy_str("search"));
        r.push(copy_str("--json"));
        r.push(copy_str(query));
        assert(views_of(r@) =~= seq!["search"@, "--json"@, query@]);
        r
    }

    /// The arguments that describe the package `name`, as JSON.
    pub fn info_args(name: &str) -> (r: Vec<String>)
        ensures
            views_of(r@) == seq!["info"@, "--json"@, name@],
    {
        let mut r: Vec<String> = Vec::new();
        r.push(copy_str("info"));
        r.push(copy_str("--json"));
        r.push(copy_str(name));
        assert(views_of(r@) =~= seq!["info"@, "--json"@, name@]);
        r
    }

    /// The arguments that install `name`, at `version` where one is given.
    pub fn install_args(name: &str, version: Option<&str>, force: bool) -> (r: Vec<String>)
        ensures
            views_of(r@) == seq!["install"@] + (if force {
                seq!["--force"@]
            } else {
                Seq::empty()
            }) + seq![target(name@, str_view(version), "@"@)],
    {
        let mut r: Vec<String> = Vec::new();
        r.push(copy_str("install"));
        if force {
            r.push(copy_str("--force"));
        }
        r.push(install_target(name, version, "@"));
        assert(views_of(r@) =~= seq!["install"@] + (if force {
                seq!["--force"@]
            } else {
                Seq::empty()
            }) + seq![target(name@, str_view(version), "@"@)]);
        r
    }

    /// The arguments that update `name`.
    pub fn upgrade_args(name: &str) -> (r: Vec<String>)
        ensures
            views_of(r@) == seq!["update"@, name@],
    {
        let mut r: Vec<String> = Vec::new();
        r.push(copy_str("update"));
        r.push(copy_str(name));
        assert(views_of(r@) =~= seq!["update"@, name@]);
        r
    }

    /// The arguments that uninstall `name`.
    pub fn uninstall_args(name: &str, force: bool) -> (r: Vec<String>)
        ensures
            views_of(r@) == seq!["uninstall"@, name@] + (if force {
                seq!["-f"@]
            } else {
                Seq::empty()
            }),
    {
        let mut r: Vec<String> = Vec::new();
        r.push(copy_str("uninstall"));
        r.push(copy_str(name));
        if force {
            r.push(copy_str("-f"));
        }
        assert(views_of(r@) =~= seq!["uninstall"@, name@] + (if force {
                seq!["-f"@]
            } else {
                Seq::empty()
            }));
        r
    }

    /// The arguments that list the outdated packages, as JSON.
    pub fn outdated_args() -> (r: Vec<String>)
        ensures
            views_of(r@) == seq!["outdated"@, "--json"@],
    {
        let mut r: Vec<String> = Vec::new();
        r.push(copy_str("outdated"));
        r.push(copy_str("--json"));
        assert(views_of(r@) =~= seq!["outdated"@, "--json"@]);
        r
    }

    /// The arguments that list what `name` depends on, as JSON.
    pub fn dependencies_args(name: &str) -> (r: Vec<String>)
        ensures
            views_of(r@) == seq!["view"@, name@, "dependencies"@, "--json"@],
    {
        let mut r: Vec<String> = Vec::new();
        r.push(copy_str("view"));
        r.push(copy_str(name));
        r.push(copy_str("dependencies"));
        r.push(copy_str("--json"));
        assert(views_of(r@) =~= seq!["view"@, name@, "dependencies"@, "--json"@]);
        r
    }
}

impl PackageManager for NpmManager {
    open spec fn title(&self) -> Seq<char> {
        "npm"@
    }

    closed spec fn key(&self) -> Seq<char> {
        self.cache_key@
    }

    open spec fn advertised(&self) -> Seq<Capability> {
        seq![
            Capability::ListInstalled,
            Capability::SearchRemote,
            Capability::QueryDependencies,
            Capability::VersionSelection,
        ]
    }

    fn name(&self) -> (r: &str) {
        "npm"
    }

    fn cache_key(&self) -> (r: &str) {
        self.cache_key.as_str()
    }

    fn capabilities(&self) -> (r: Vec<Capability>) {
        let mut v: Vec<Capability> = Vec::new();
        v.push(Capability::ListInstalled);
        v.push(Capability::SearchRemote);
        v.push(Capability::QueryDependencies);
        v.push(Capability::VersionSelection);
        assert(v@ =~= self.advertised());
        v
    }
}

} // verus!
