//! The adapter for cargo.

use std::sync::Arc;
use vstd::prelude::*;
use crate::adapter::{
    opt_package, outdated_entry, outdated_from_info, parse_lines, read_lines, LineReader,
};
use crate::cache::Cache;
use crate::manager::PackageManager;
use crate::package::{bare_package, package_views, Capability, Package, PackageView};
use crate::text::{
    chars_of, contains, copy_str, has_infix, has_prefix, lemma_split_nonempty, lines, occurs_at,
    opt_view, seqs_of, split, split_lines, split_on, split_words, starts_with, string_of, strip,
    strip_both, trim, trimmed, views_of, words,
};

verus! {

/// The adapter for cargo: its command lines and the readers of its output.
pub struct CargoManager {
    cache: Arc<Cache>,
    global: bool,
}

/// Where cargo installs to, as the listing shows it.
pub const INSTALL_PATH: &'static str = "~/.cargo/bin";

/// Reads a line of `cargo install --list`: a name, and a version that
/// ends in a colon.
pub struct ListLine;

impl LineReader for ListLine {
    open spec fn reads(&self, line: Seq<char>) -> Option<PackageView> {
        let parts = words(trim(line));
        if parts.len() == 0 {
            None
        } else {
            Some(
                PackageView {
                    installed_path: Some(INSTALL_PATH@),
                    ..bare_package(
                        parts[0],
                        if parts.len() >= 2 {
                            strip(parts[1], ":"@)
                        } else {
                            Seq::empty()
                        },
                        "cargo"@,
                    )
                },
            )
        }
    }

    fn read(&self, line: &Vec<char>) -> (r: Option<Package>) {
        let parts = split_words(&trimmed(line));
        if parts.len() == 0 {
            None
        } else {
            let version = if parts.len() >= 2 {
                string_of(&strip_both(&parts[1], ":"))
            } else {
                String::new()
            };
            let mut p = Package::bare(string_of(&parts[0]), version, copy_str("cargo"));
            p.installed_path = Some(copy_str(INSTALL_PATH));
            Some(p)
        }
    }
}

/// The version that stands after the first `=` of a line of
/// `cargo search`: what comes before a `#`, without quotes and blanks
/// around it.
pub open spec fn crate_version(after: Seq<char>) -> Seq<char> {
    strip(trim(split(after, '#')[0]), "\" "@)
}

/// The description that stands after the first `=` of a line of
/// `cargo search`: what comes after the first `#`, up to the next.
pub open spec fn crate_description(after: Seq<char>) -> Option<Seq<char>> {
    if split(after, '#').len() >= 2 {
        Some(trim(split(after, '#')[1]))
    } else {
        None
    }
}

/// Reads a line of `cargo search`: a name, `=`, a version in quotes, and a
/// description after `#`.
pub struct SearchLine;

impl LineReader for SearchLine {
    open spec fn reads(&self, line: Seq<char>) -> Option<PackageView> {
        let t = trim(line);
        let pieces = split(t, '=');
        if t.len() == 0 || has_prefix(t, "="@) || pieces.len() < 2 {
            None
        } else {
            Some(
                PackageView {
                    description: crate_description(pieces[1]),
                    ..bare_package(trim(pieces[0]), crate_version(pieces[1]), "cargo"@)
                },
            )
        }
    }

    fn read(&self, line: &Vec<char>) -> (r: Option<Package>) {
        let t = trimmed(line);
        if t.len() == 0 || starts_with(&t, "=") {
            return None;
        }
        let pieces = split_on(&t, '=');
        if pieces.len() < 2 {
            return None;
        }
        let (version, description) = version_and_description(&pieces[1]);
        let mut p = Package::bare(string_of(&trimmed(&pieces[0])), version, copy_str("cargo"));
        p.description = description;
        Some(p)
    }
}

/// The version and the description that stand after the first `=` of a
/// line of `cargo search`.
pub fn version_and_description(after: &Vec<char>) -> (r: (String, Option<String>))
    ensures
        r.0@ == crate_version(after@),
        opt_view(r.1) == crate_description(after@),
{
    let halves = split_on(after, '#');
    let version = string_of(&strip_both(&trimmed(&halves[0]), "\" "));
    let description = if halves.len() >= 2 {
        Some(string_of(&trimmed(&halves[1])))
    } else {
        None
    };
    (version, description)
}

/// Whether a line of `cargo search` is about the crate `name`: it starts
/// with the name and holds a `=`.
pub open spec fn about(line: Seq<char>, name: Seq<char>) -> bool {
    has_prefix(trim(line), name) && has_infix(trim(line), "="@)
}

/// The index of the first of `rows` from `from` on that is about `name`;
/// the number of rows where there is none.
pub open spec fn first_about(rows: Seq<Seq<char>>, name: Seq<char>, from: int) -> int
    decreases rows.len() - from,
{
    if from >= rows.len() {
        rows.len() as int
    } else if about(rows[from], name) {
        from
    } else {
        first_about(rows, name, from + 1)
    }
}

/// The crate `name` with what the output of `cargo search` says of it in
/// the first line that is about it.
pub open spec fn crate_info(name: Seq<char>, output: Seq<char>) -> PackageView {
    let rows = lines(output);
    let k = first_about(rows, name, 0);
    if 0 <= k < rows.len() {
        let after = split(trim(rows[k]), '=')[1];
        PackageView {
            description: crate_description(after),
            installed_path: Some(INSTALL_PATH@),
            ..bare_package(name, crate_version(after), "cargo"@)
        }
    } else {
        PackageView {
            installed_path: Some(INSTALL_PATH@),
            ..bare_package(name, Seq::empty(), "cargo"@)
        }
    }
}

/// A text that holds the separator splits into at least two pieces.
pub proof fn lemma_split_two(s: Seq<char>, sep: char, i: int)
    requires
        0 <= i < s.len(),
        s[i] == sep,
    ensures
        split(s, sep).len() >= 2,
    decreases s.len(),
{
    lemma_split_nonempty(s.drop_last(), sep);
    if s.last() != sep {
        assert(i < s.len() - 1);
        assert(s.drop_last()[i] == s[i]);
        lemma_split_two(s.drop_last(), sep, i);
    }
}

impl CargoManager {
    pub fn new(cache: Arc<Cache>, global: bool) -> (m: CargoManager)
        ensures
            m.store() == cache,
            m.global() == global,
    {
        CargoManager { cache, global }
    }

    /// Whether the adapter was made for the global installation.
    pub closed spec fn global(&self) -> bool {
        self.global
    }

    /// The cache that the adapter reads and writes.
    pub closed spec fn store(&self) -> Arc<Cache> {
        self.cache
    }

    /// The cache that the adapter reads and writes.
    pub fn cache(&self) -> (r: &Arc<Cache>)
        ensures
            *r == self.store(),
    {
        &self.cache
    }

    /// The packages that the output of `cargo install --list` names.
    pub fn parse_list_output(&self, output: &str) -> (r: Vec<Package>)
        ensures
            package_views(r@) == read_lines(ListLine, output@, 0),
    {
        parse_lines(&ListLine, output, 0)
    }

    /// The packages that the output of `cargo search` names.
    pub fn parse_search_output(&self, output: &str) -> (r: Vec<Package>)
        ensures
            package_views(r@) == read_lines(SearchLine, output@, 0),
    {
        parse_lines(&SearchLine, output, 0)
    }

    /// The crate `name` with what the output of `cargo search` says of it.
    pub fn parse_info_output(&self, name: &str, output: &str) -> (p: Package)
        ensures
            p@ == crate_info(name@, output@),
    {
        let all = split_lines(&chars_of(output));
        let ghost rows = lines(output@);
        let mut p = Package::bare(copy_str(name), String::new(), copy_str("cargo"));
        p.installed_path = Some(copy_str(INSTALL_PATH));
        let mut i: usize = 0;
        while i < all.len()
            invariant
                i <= all.len(),
                seqs_of(all@) == rows,
                rows == lines(output@),
                first_about(rows, name@, 0) == first_about(rows, name@, i as int),
                p@ == (PackageView {
                    installed_path: Some(INSTALL_PATH@),
                    ..bare_package(name@, Seq::empty(), "cargo"@)
                }),
            decreases all.len() - i,
        {
            assert(rows[i as int] == all@[i as int]@);
            let line = trimmed(&all[i]);
            if starts_with(&line, name) && contains(&line, "=") {
                let pieces = split_on(&line, '=');
                proof {
                    reveal_strlit("=");
                    let k = choose|k: int| occurs_at(line@, "="@, k);
                    assert(line@.subrange(k, k + 1)[0] == '=');
                    lemma_split_two(line@, '=', k);
                }
                let (version, description) = version_and_description(&pieces[1]);
                p.version = version;
                p.description = description;
                return p;
            }
            i = i + 1;
        }
        p
    }

    /// What the details of an installed crate say of it: it is outdated
    /// where they name a latest version other than the installed one.
    pub fn outdated_entry(&self, installed: &Package, info: &Package) -> (r: Option<Package>)
        ensures
            opt_package(r) == outdated_entry(installed@, info@, "cargo"@),
    {
        outdated_from_info(installed, info, "cargo")
    }
}

impl CargoManager {
    /// The arguments that list the installed crates.
    pub fn list_args() -> (r: Vec<String>)
        ensures
            views_of(r@) == seq!["install"@, "--list"@],
    {
        let mut r: Vec<String> = Vec::new();
        r.push(copy_str("install"));
        r.push(copy_str("--list"));
        assert(views_of(r@) =~= seq!["install"@, "--list"@]);
        r
    }

    /// The arguments that search for `query`.
    pub fn search_args(query: &str) -> (r: Vec<String>)
        ensures
            views_of(r@) == seq!["search"@, query@],
    {
        let mut r: Vec<String> = Vec::new();
        r.push(copy_str("search"));
        r.push(copy_str(query));
        assert(views_of(r@) =~= seq!["search"@, query@]);
        r
    }

    /// The arguments that look up the crate `name`.
    pub fn info_args(name: &str) -> (r: Vec<String>)
        ensures
            views_of(r@) == seq!["search"@, name@, "--limit"@, "1"@],
    {
        let mut r: Vec<String> = Vec::new();
        r.push(copy_str("search"));
        r.push(copy_str(name));
        r.push(copy_str("--limit"));
        r.push(copy_str("1"));
        assert(views_of(r@) =~= seq!["search"@, name@, "--limit"@, "1"@]);
        r
    }

    /// The arguments that install `name`, at `version` where one is given.
    pub fn install_args(name: &str, version: Option<&str>) -> (r: Vec<String>)
        ensures
            views_of(r@) == seq!["install"@] + (match version {
                Some(v) => seq!["--version"@, v@],
                None => Seq::empty(),
            }) + seq![name@],
    {
        let mut r: Vec<String> = Vec::new();
        r.push(copy_str("install"));
        match version {
            Some(v) => {
                r.push(copy_str("--version"));
                r.push(copy_str(v));
            },
            None => {},
        }
        r.push(copy_str(name));
        assert(views_of(r@) =~= seq!["install"@] + (match version {
                Some(v) => seq!["--version"@, v@],
                None => Seq::empty(),
            }) + seq![name@]);
        r
    }

    /// The arguments that install `name` anew.
    pub fn upgrade_args(name: &str) -> (r: Vec<String>)
        ensures
            views_of(r@) == seq!["install"@, "--force"@, name@],
    {
        let mut r: Vec<String> = Vec::new();
        r.push(copy_str("install"));
        r.push(copy_str("--force"));
        r.push(copy_str(name));
        assert(views_of(r@) =~= seq!["install"@, "--force"@, name@]);
        r
    }

    /// The arguments that uninstall `name`.
    pub fn uninstall_args(name: &str) -> (r: Vec<String>)
        ensures
            views_of(r@) == seq!["uninstall"@, name@],
    {
        let mut r: Vec<String> = Vec::new();
        r.push(copy_str("uninstall"));
        r.push(copy_str(name));
        assert(views_of(r@) =~= seq!["uninstall"@, name@]);
        r
    }
}

impl PackageManager for CargoManager {
    open spec fn title(&self) -> Seq<char> {
        "cargo"@
    }

    open spec fn key(&self) -> Seq<char> {
        "cargo"@
    }

    open spec fn advertised(&self) -> Seq<Capability> {
        seq![Capability::ListInstalled, Capability::SearchRemote, Capability::VersionSelection]
    }

    fn name(&self) -> (r: &str) {
        "cargo"
    }

    fn cache_key(&self) -> (r: &str) {
        "cargo"
    }

    fn capabilities(&self) -> (r: Vec<Capability>) {
        let mut v: Vec<Capability> = Vec::new();
        v.push(Capability::ListInstalled);
        v.push(Capability::SearchRemote);
        v.push(Capability::VersionSelection);
        assert(v@ =~= self.advertised());
        v
    }
}

} // verus!
