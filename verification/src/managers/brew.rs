//! The adapter for brew.

use std::sync::Arc;
use vstd::prelude::*;
use crate::adapter::{
    install_target, opt_package, parse_lines, read_lines, str_view, target, LineReader, NameVersion,
};
use crate::cache::Cache;
use crate::codec::{required_text, text_at};
use crate::documents::{failure_prefix, read_output};
use crate::error::BoxyError;
use crate::json::{parsed, Json};
use crate::manager::PackageManager;
use crate::package::{bare_package, package_views, Capability, Package, PackageView};
use crate::sizes::{bytes_of, kilobytes, size_views};
use crate::text::{
    chars_of, copy_str, has_prefix, join, join_chars, opt_view, seqs_of, split_words, starts_with,
    string_of, strip, strip_both, trim, trimmed, views_of, words,
};

verus! {

/// The adapter for brew: its command lines and the readers of its output.
pub struct BrewManager {
    cache: Arc<Cache>,
}

/// How a line of `brew list --versions` is read: a name, and a version
/// where there is one.
pub open spec fn list_reader() -> NameVersion {
    NameVersion { manager: "brew", version_required: false, installed_path: None }
}

/// Reads a line of `brew search`: a name. Headings start with `==>`.
pub struct SearchName;

impl LineReader for SearchName {
    open spec fn reads(&self, line: Seq<char>) -> Option<PackageView> {
        let t = trim(line);
        if t.len() == 0 || has_prefix(t, "==>"@) {
            None
        } else {
            Some(bare_package(t, Seq::empty(), "brew"@))
        }
    }

    fn read(&self, line: &Vec<char>) -> (r: Option<Package>) {
        let t = trimmed(line);
        if t.len() == 0 || starts_with(&t, "==>") {
            None
        } else {
            Some(Package::bare(string_of(&t), String::new(), copy_str("brew")))
        }
    }
}

/// Reads a line of `brew outdated`: a name, the installed version in round
/// brackets, a sign, and the latest version.
pub struct OutdatedFormula;

impl LineReader for OutdatedFormula {
    open spec fn reads(&self, line: Seq<char>) -> Option<PackageView> {
        let parts = words(trim(line));
        if parts.len() == 0 {
            None
        } else {
            Some(
                PackageView {
                    outdated: true,
                    latest_version: Some(
                        if parts.len() >= 4 {
                            parts[3]
                        } else {
                            Seq::empty()
                        },
                    ),
                    ..bare_package(
                        parts[0],
                        if parts.len() >= 2 {
                            strip(parts[1], "()"@)
                        } else {
                            Seq::empty()
                        },
                        "brew"@,
                    )
                },
            )
        }
    }

    fn read(&self, line: &Vec<char>) -> (r: Option<Package>) {
        let parts = split_words(&trimmed(line));
        if parts.len() == 0 {
            None
        } else {
            let version = if parts.len() >= 2 {
                string_of(&strip_both(&parts[1], "()"))
            } else {
                String::new()
            };
            let latest = if parts.len() >= 4 {
                string_of(&parts[3])
            } else {
                String::new()
            };
            let mut p = Package::bare(string_of(&parts[0]), version, copy_str("brew"));
            p.outdated = true;
            p.latest_version = Some(latest);
            Some(p)
        }
    }
}

/// The texts among the first `n` of `items`, in order.
pub open spec fn texts_among(items: Seq<Json>, n: int) -> Seq<Seq<char>>
    decreases n,
{
    if n <= 0 {
        Seq::empty()
    } else {
        match items[n - 1].text() {
            Some(t) => texts_among(items, n - 1).push(t),
            None => texts_among(items, n - 1),
        }
    }
}

/// The texts of an array in one text, with a comma and a blank between them.
pub open spec fn listed_texts(items: Seq<Json>) -> Seq<char> {
    join(texts_among(items, items.len() as int), ", "@)
}

/// The license that a value names: a text, or the texts of an array where
/// it holds any.
pub open spec fn license_of(value: Json) -> Option<Seq<char>> {
    match value {
        Json::Text(s) => Some(s@),
        Json::Array(items) => if texts_among(items@, items@.len() as int).len() > 0 {
            Some(listed_texts(items@))
        } else {
            None
        },
        _ => None,
    }
}

/// The first item of the array under `key`.
pub open spec fn first_under(doc: Json, key: Seq<char>) -> Option<Json> {
    match doc.field(key) {
        Some(Json::Array(items)) => if items@.len() > 0 {
            Some(items@[0])
        } else {
            None
        },
        _ => None,
    }
}

/// The size in bytes for the number of kilobytes under `key`.
pub open spec fn size_under(value: Json, key: Seq<char>) -> Option<u64> {
    match value.field(key) {
        Some(n) => match n.unsigned() {
            Some(kb) => Some(kilobytes(kb)),
            None => None,
        },
        None => None,
    }
}

/// The size in bytes of an installed formula: that of the first item
/// under `installed`.
pub open spec fn installed_size(formula: Json) -> Option<u64> {
    match first_under(formula, "installed"@) {
        Some(first) => size_under(first, "installed_size"@),
        None => None,
    }
}

/// The text under `key`, or `other` where there is none.
pub open spec fn text_or(value: Json, key: Seq<char>, other: Seq<char>) -> Seq<char> {
    match text_at(value, key) {
        Some(t) => t,
        None => other,
    }
}

/// The stable version of a formula; empty where it names none.
pub open spec fn stable_version(formula: Json) -> Seq<char> {
    match formula.field("versions"@) {
        Some(versions) => text_or(versions, "stable"@, Seq::empty()),
        None => Seq::empty(),
    }
}

/// The package that a formula describes; `name` where it names none.
pub open spec fn formula_info(formula: Json, name: Seq<char>) -> PackageView {
    PackageView {
        description: text_at(formula, "desc"@),
        homepage: text_at(formula, "homepage"@),
        license: match formula.field("license"@) {
            Some(value) => license_of(value),
            None => None,
        },
        size: installed_size(formula),
        ..bare_package(text_or(formula, "name"@, name), stable_version(formula), "brew"@)
    }
}

/// The version of a cask: a text, or the texts of an array.
pub open spec fn cask_version(cask: Json) -> Seq<char> {
    match cask.field("version"@) {
        Some(Json::Text(s)) => s@,
        Some(Json::Array(items)) => listed_texts(items@),
        _ => Seq::empty(),
    }
}

/// The package that a cask describes; `name` where it names no token.
pub open spec fn cask_info(cask: Json, name: Seq<char>) -> PackageView {
    PackageView {
        description: text_at(cask, "desc"@),
        homepage: text_at(cask, "homepage"@),
        size: size_under(cask, "installed_size"@),
        ..bare_package(text_or(cask, "token"@, name), cask_version(cask), "brew"@)
    }
}

/// The package that the document of `brew info` describes: the first
/// formula, else the first cask.
pub open spec fn brew_info(doc: Json, name: Seq<char>) -> Option<PackageView> {
    match first_under(doc, "formulae"@) {
        Some(formula) => Some(formula_info(formula, name)),
        None => match first_under(doc, "casks"@) {
            Some(cask) => Some(cask_info(cask, name)),
            None => None,
        },
    }
}

/// The size that a formula reports for itself.
pub open spec fn formula_size(formula: Json) -> Option<(Seq<char>, u64)> {
    match (text_at(formula, "name"@), installed_size(formula)) {
        (Some(name), Some(size)) => Some((name, size)),
        _ => None,
    }
}

/// The size that a cask reports for itself, under its token or else its
/// name.
pub open spec fn cask_size(cask: Json) -> Option<(Seq<char>, u64)> {
    let name = match text_at(cask, "token"@) {
        Some(t) => Some(t),
        None => text_at(cask, "name"@),
    };
    match (name, size_under(cask, "installed_size"@)) {
        (Some(name), Some(size)) => Some((name, size)),
        _ => None,
    }
}

/// The sizes that the first `n` of `items` report, formulae or casks.
pub open spec fn sizes_among(items: Seq<Json>, casks: bool, n: int) -> Seq<(Seq<char>, u64)>
    decreases n,
{
    if n <= 0 {
        Seq::empty()
    } else {
        match if casks {
            cask_size(items[n - 1])
        } else {
            formula_size(items[n - 1])
        } {
            Some(entry) => sizes_among(items, casks, n - 1).push(entry),
            None => sizes_among(items, casks, n - 1),
        }
    }
}

/// The sizes that the array under `key` reports.
pub open spec fn sizes_under(doc: Json, key: Seq<char>, casks: bool) -> Seq<(Seq<char>, u64)> {
    match doc.field(key) {
        Some(Json::Array(items)) => sizes_among(items@, casks, items@.len() as int),
        _ => Seq::empty(),
    }
}

/// The sizes that the document of `brew info --installed` reports: those
/// of the formulae, then those of the casks.
pub open spec fn installed_sizes(doc: Json) -> Seq<(Seq<char>, u64)> {
    sizes_under(doc, "formulae"@, false) + sizes_under(doc, "casks"@, true)
}

fn texts_of(items: &Vec<Json>) -> (r: Vec<Vec<char>>)
    ensures
        seqs_of(r@) == texts_among(items@, items.len() as int),
{
    let mut out: Vec<Vec<char>> = Vec::new();
    let mut i: usize = 0;
    assert(seqs_of(out@) =~= texts_among(items@, 0));
    while i < items.len()
        invariant
            i <= items.len(),
            seqs_of(out@) == texts_among(items@, i as int),
        decreases items.len() - i,
    {
        match items[i].as_str() {
            Some(t) => {
                let ghost before = seqs_of(out@);
                let v = chars_of(t);
                out.push(v);
                assert(seqs_of(out@) =~= before.push(v@));
            },
            None => {},
        }
        i = i + 1;
    }
    out
}

fn first_item<'a>(doc: &'a Json, key: &str) -> (r: Option<&'a Json>)
    ensures
        match first_under(*doc, key@) {
            Some(item) => r matches Some(x) && *x == item,
            None => r is None,
        },
{
    match doc.get(key) {
        Some(Json::Array(items)) => {
            if items.len() > 0 {
                Some(&items[0])
            } else {
                None
            }
        },
        _ => None,
    }
}

fn size_at(value: &Json, key: &str) -> (r: Option<u64>)
    ensures
        r == size_under(*value, key@),
{
    match value.get(key) {
        Some(n) => match n.as_u64() {
            Some(kb) => Some(bytes_of(kb)),
            None => None,
        },
        None => None,
    }
}

fn sizes_at(doc: &Json, key: &str, casks: bool) -> (r: Vec<(String, u64)>)
    ensures
        size_views(r@) == sizes_under(*doc, key@, casks),
{
    let mut out: Vec<(String, u64)> = Vec::new();
    assert(size_views(out@) =~= Seq::<(Seq<char>, u64)>::empty());
    match doc.get(key) {
        Some(Json::Array(items)) => {
            let mut i: usize = 0;
            while i < items.len()
                invariant
                    i <= items.len(),
                    size_views(out@) == sizes_among(items@, casks, i as int),
                decreases items.len() - i,
            {
                let item = &items[i];
                let name = if casks {
                    match required_text(item, "token") {
                        Some(t) => Some(t),
                        None => required_text(item, "name"),
                    }
                } else {
                    required_text(item, "name")
                };
                let size = if casks {
                    size_at(item, "installed_size")
                } else {
                    BrewManager::parse_size_from_installed(item)
                };
                match (name, size) {
                    (Some(name), Some(size)) => {
                        let ghost before = size_views(out@);
                        let entry = (name, size);
                        out.push(entry);
                        assert(size_views(out@) =~= before.push((entry.0@, entry.1)));
                    },
                    _ => {},
                }
                i = i + 1;
            }
            out
        },
        _ => out,
    }
}

impl BrewManager {
    pub fn new(cache: Arc<Cache>) -> (m: BrewManager)
        ensures
            m.store() == cache,
    {
        BrewManager { cache }
    }

    /// The cache that the adapter reads and writes.
    pub closed spec fn store(&self) -> Arc<Cache> {
        self.cache
    }

    /// The cache that the adapter reads and writes.
    pub fn cache(&self) -> (r: &Arc<Cache>)
        ensures
            *r == self.store(),
    {
        &self.cache
    }

    /// The packages that the output of `brew list --versions` names.
    pub fn parse_list_output_with_versions(&self, output: &str) -> (r: Vec<Package>)
        ensures
            package_views(r@) == read_lines(list_reader(), output@, 0),
    {
        parse_lines(
            &NameVersion { manager: "brew", version_required: false, installed_path: None },
            output,
            0,
        )
    }

    /// The packages that the output of `brew search` names.
    pub fn parse_search_output(&self, output: &str) -> (r: Vec<Package>)
        ensures
            package_views(r@) == read_lines(SearchName, output@, 0),
    {
        parse_lines(&SearchName, output, 0)
    }

    /// The packages that the output of `brew outdated` names.
    pub fn parse_outdated_output(&self, output: &str) -> (r: Vec<Package>)
        ensures
            package_views(r@) == read_lines(OutdatedFormula, output@, 0),
    {
        parse_lines(&OutdatedFormula, output, 0)
    }

    /// The license that a value names.
    pub fn parse_license(value: &Json) -> (r: Option<String>)
        ensures
            opt_view(r) == license_of(*value),
    {
        match value {
            Json::Text(s) => Some(s.clone()),
            Json::Array(items) => {
                let texts = texts_of(items);
                if texts.len() > 0 {
                    Some(string_of(&join_chars(&texts, ", ")))
                } else {
                    None
                }
            },
            _ => None,
        }
    }

    /// The size in bytes of an installed formula.
    pub fn parse_size_from_installed(formula: &Json) -> (r: Option<u64>)
        ensures
            r == installed_size(*formula),
    {
        match first_item(formula, "installed") {
            Some(first) => size_at(first, "installed_size"),
            None => None,
        }
    }

    /// The package that the document of `brew info` describes.
    pub fn info_of(doc: &Json, name: &str) -> (r: Option<Package>)
        ensures
            opt_package(r) == brew_info(*doc, name@),
    {
        if let Some(formula) = first_item(doc, "formulae") {
            let version = match formula.get("versions") {
                Some(versions) => match required_text(versions, "stable") {
                    Some(v) => v,
                    None => String::new(),
                },
                None => String::new(),
            };
            let mut p = Package::bare(
                match required_text(formula, "name") {
                    Some(n) => n,
                    None => copy_str(name),
                },
                version,
                copy_str("brew"),
            );
            p.description = required_text(formula, "desc");
            p.homepage = required_text(formula, "homepage");
            p.license = match formula.get("license") {
                Some(value) => BrewManager::parse_license(value),
                None => None,
            };
            p.size = BrewManager::parse_size_from_installed(formula);
            return Some(p);
        }
        if let Some(cask) = first_item(doc, "casks") {
            let version = match cask.get("version") {
                Some(Json::Text(s)) => s.clone(),
                Some(Json::Array(items)) => string_of(&join_chars(&texts_of(items), ", ")),
                _ => String::new(),
            };
            let mut p = Package::bare(
                match required_text(cask, "token") {
                    Some(n) => n,
                    None => copy_str(name),
                },
                version,
                copy_str("brew"),
            );
            p.description = required_text(cask, "desc");
            p.homepage = required_text(cask, "homepage");
            p.size = size_at(cask, "installed_size");
            return Some(p);
        }
        None
    }

    /// The package `name` with what the output of `brew info --json=v2`
    /// says of it. An output without a formula and without a cask is an
    /// error.
    pub fn parse_json_info(&self, output: &str, name: &str) -> (r: Result<Package, BoxyError>)
        ensures
            match parsed(output@) {
                Err(m) => r matches Err(BoxyError::JsonError { message }) && message@
                    == failure_prefix("brew"@, "info"@) + m,
                Ok(doc) => match brew_info(doc, name@) {
                    Some(p) => r matches Ok(v) && v@ == p,
                    None => r matches Err(BoxyError::JsonError { message }) && message@
                        == "解析 brew info 输出失败"@,
                },
            },
    {
        match read_output(output, "brew", "info") {
            Err(e) => Err(e),
            Ok(doc) => match BrewManager::info_of(&doc, name) {
                Some(p) => Ok(p),
                None => Err(BoxyError::JsonError { message: copy_str("解析 brew info 输出失败") }),
            },
        }
    }

    /// The sizes in bytes that the output of `brew info --json=v2
    /// --installed` reports, by the name of the package.
    pub fn parse_installed_sizes(&self, output: &str) -> (r: Result<Vec<(String, u64)>, BoxyError>)
        ensures
            match parsed(output@) {
                Err(m) => r matches Err(BoxyError::JsonError { message }) && message@
                    == failure_prefix("brew"@, "info"@) + m,
                Ok(doc) => r matches Ok(v) && size_views(v@) == installed_sizes(doc),
            },
    {
        match read_output(output, "brew", "info") {
            Err(e) => Err(e),
            Ok(doc) => {
                let mut out = sizes_at(&doc, "formulae", false);
                let mut more = sizes_at(&doc, "casks", true);
                let ghost first = size_views(out@);
                let ghost second = size_views(more@);
                out.append(&mut more);
                assert(size_views(out@) =~= first + second);
                Ok(out)
            },
        }
    }
}

impl BrewManager {
    /// The arguments that list the installed formulae with their versions.
    pub fn list_args() -> (r: Vec<String>)
        ensures
            views_of(r@) == seq!["list"@, "--versions"@],
    {
        let mut r: Vec<String> = Vec::new();
        r.push(copy_str("list"));
        r.push(copy_str("--versions"));
        assert(views_of(r@) =~= seq!["list"@, "--versions"@]);
        r
    }

    /// The arguments that list the installed casks with their versions.
    pub fn list_casks_args() -> (r: Vec<String>)
        ensures
            views_of(r@) == seq!["list"@, "--cask"@, "--versions"@],
    {
        let mut r: Vec<String> = Vec::new();
        r.push(copy_str("list"));
        r.push(copy_str("--cask"));
        r.push(copy_str("--versions"));
        assert(views_of(r@) =~= seq!["list"@, "--cask"@, "--versions"@]);
        r
    }

    /// The arguments that describe everything installed, as JSON.
    pub fn sizes_args() -> (r: Vec<String>)
        ensures
            views_of(r@) == seq!["info"@, "--json=v2"@, "--installed"@],
    {
        let mut r: Vec<String> = Vec::new();
        r.push(copy_str("info"));
        r.push(copy_str("--json=v2"));
        r.push(copy_str("--installed"));
        assert(views_of(r@) =~= seq!["info"@, "--json=v2"@, "--installed"@]);
        r
    }

    /// The arguments that search for `query`.
    pub fn search_args(query: &str) -> (r: Vec<String>)
        ensures
            views_of(r@) == seq!["search"@, query@],
    {
        let mut r: Vec<String> = Vec::new();
        r.push(copy_str("search"));
        r.push(copy_str(query));
        assert(views_of(r@) =~= seq!["search"@, query@]);
        r
    }

    /// The arguments that describe the formula `name`, as JSON.
    pub fn info_args(name: &str) -> (r: Vec<String>)
        ensures
            views_of(r@) == seq!["info"@, "--json=v2"@, name@],
    {
        let mut r: Vec<String> = Vec::new();
        r.push(copy_str("info"));
        r.push(copy_str("--json=v2"));
        r.push(copy_str(name));
        assert(views_of(r@) =~= seq!["info"@, "--json=v2"@, name@]);
        r
    }

    /// The arguments that describe the cask `name`, as JSON.
    pub fn info_cask_args(name: &str) -> (r: Vec<String>)
        ensures
            views_of(r@) == seq!["info"@, "--json=v2"@, "--cask"@, name@],
    {
        let mut r: Vec<String> = Vec::new();
        r.push(copy_str("info"));
        r.push(copy_str("--json=v2"));
        r.push(copy_str("--cask"));
        r.push(copy_str(name));
        assert(views_of(r@) =~= seq!["info"@, "--json=v2"@, "--cask"@, name@]);
        r
    }

    /// The arguments that install the formula `name`, at `version` where one is given.
    pub fn install_args(name: &str, version: Option<&str>) -> (r: Vec<String>)
        ensures
            views_of(r@) == seq!["install"@, target(name@, str_view(version), "@"@)],
    {
        let mut r: Vec<String> = Vec::new();
        r.push(copy_str("install"));
        r.push(install_target(name, version, "@"));
        assert(views_of(r@) =~= seq!["install"@, target(name@, str_view(version), "@"@)]);
        r
    }

    /// The arguments that install the cask `name`.
    pub fn install_cask_args(name: &str) -> (r: Vec<String>)
        ensures
            views_of(r@) == seq!["install"@, "--cask"@, name@],
    {
        let mut r: Vec<String> = Vec::new();
        r.push(copy_str("install"));
        r.push(copy_str("--cask"));
        r.push(copy_str(name));
        assert(views_of(r@) =~= seq!["install"@, "--cask"@, name@]);
        r
    }

    /// The arguments that upgrade the formula `name`.
    pub fn upgrade_args(name: &str) -> (r: Vec<String>)
        ensures
            views_of(r@) == seq!["upgrade"@, name@],
    {
        let mut r: Vec<String> = Vec::new();
        r.push(copy_str("upgrade"));
        r.push(copy_str(name));
        assert(views_of(r@) =~= seq!["upgrade"@, name@]);
        r
    }

    /// The arguments that upgrade the cask `name`.
    pub fn upgrade_cask_args(name: &str) -> (r: Vec<String>)
        ensures
            views_of(r@) == seq!["upgrade"@, "--cask"@, name@],
    {
        let mut r: Vec<String> = Vec::new();
        r.push(copy_str("upgrade"));
        r.push(copy_str("--cask"));
        r.push(copy_str(name));
        assert(views_of(r@) =~= seq!["upgrade"@, "--cask"@, name@]);
        r
    }

    /// The arguments that uninstall the formula `name`.
    pub fn uninstall_args(name: &str, force: bool) -> (r: Vec<String>)
        ensures
            views_of(r@) == seq!["uninstall"@] + (if force {
                seq!["--force"@]
            } else {
                Seq::empty()
            }) + seq![name@],
    {
        let mut r: Vec<String> = Vec::new();
        r.push(copy_str("uninstall"));
        if force {
            r.push(copy_str("--force"));
        }
        r.push(copy_str(name));
        assert(views_of(r@) =~= seq!["uninstall"@] + (if force {
                seq!["--force"@]
            } else {
                Seq::empty()
            }) + seq![name@]);
        r
    }

    /// The arguments that uninstall the cask `name`.
    pub fn uninstall_cask_args(name: &str, force: bool) -> (r: Vec<String>)
        ensures
            views_of(r@) == seq!["uninstall"@, "--cask"@] + (if force {
                seq!["--force"@]
            } else {
                Seq::empty()
            }) + seq![name@],
    {
        let mut r: Vec<String> = Vec::new();
        r.push(copy_str("uninstall"));
        r.push(copy_str("--cask"));
        if force {
            r.push(copy_str("--force"));
        }
        r.push(copy_str(name));
        assert(views_of(r@) =~= seq!["uninstall"@, "--cask"@] + (if force {
                seq!["--force"@]
            } else {
                Seq::empty()
            }) + seq![name@]);
        r
    }

    /// The arguments that list the outdated packages.
    pub fn outdated_args() -> (r: Vec<String>)
        ensures
            views_of(r@) == seq!["outdated"@],
    {
        let mut r: Vec<String> = Vec::new();
        r.push(copy_str("outdated"));
        assert(views_of(r@) =~= seq!["outdated"@]);
        r
    }
}

impl PackageManager for BrewManager {
    open spec fn title(&self) -> Seq<char> {
        "brew"@
    }

    open spec fn key(&self) -> Seq<char> {
        "brew"@
    }

    open spec fn advertised(&self) -> Seq<Capability> {
        seq![Capability::ListInstalled, Capability::SearchRemote, Capability::VersionSelection]
    }

    fn name(&self) -> (r: &str) {
        "brew"
    }

    fn cache_key(&self) -> (r: &str) {
        "brew"
    }

    fn capabilities(&self) -> (r: Vec<Capability>) {
        let mut v: Vec<Capability> = Vec::new();
        v.push(Capability::ListInstalled);
        v.push(Capability::SearchRemote);
        v.push(Capability::VersionSelection);
        assert(v@ =~= self.advertised());
        v
    }
}

} // verus!
