//! The adapter for mas.

use std::sync::Arc;
use vstd::prelude::*;
use crate::adapter::{described, parse_info, parse_lines, read_lines, InfoKeys, LineReader};
use crate::cache::Cache;
use crate::manager::PackageManager;
use crate::package::{bare_package, package_views, Capability, Package, PackageView};
use crate::text::{
    chars_of, copy_str, find, has_infix, join, join_chars, parts_between, seqs_of, split_words,
    string_of, strip, strip_both, trim, trimmed, views_of, words,
};

verus! {

/// The adapter for mas: its command lines and the readers of its output.
pub struct MasManager {
    cache: Arc<Cache>,
}

/// Where applications are installed.
pub const INSTALL_PATH: &'static str = "/Applications";

/// Whether a word opens a round bracket.
pub open spec fn bracketed(word: Seq<char>) -> bool {
    word.len() > 0 && word[0] == '('
}

/// The index of the first of `parts` from `from` on that opens a round
/// bracket; the number of parts where there is none.
pub open spec fn first_bracketed(parts: Seq<Seq<char>>, from: int) -> int
    decreases parts.len() - from,
{
    if from >= parts.len() {
        parts.len() as int
    } else if bracketed(parts[from]) {
        from
    } else {
        first_bracketed(parts, from + 1)
    }
}

/// The index of the first of `parts` from `from` on that holds an arrow;
/// the number of parts where there is none.
pub open spec fn first_arrow(parts: Seq<Seq<char>>, from: int) -> int
    decreases parts.len() - from,
{
    if from >= parts.len() {
        parts.len() as int
    } else if has_infix(parts[from], "->"@) {
        from
    } else {
        first_arrow(parts, from + 1)
    }
}

/// The name of the application in a line of words: the words after the
/// first up to one that opens a round bracket, or the first word where
/// there are none.
pub open spec fn app_name(parts: Seq<Seq<char>>) -> Seq<char> {
    let name = join(parts.subrange(1, first_bracketed(parts, 1)), " "@);
    if name.len() == 0 {
        parts[0]
    } else {
        name
    }
}

/// The version in a line of words: the first word that opens a round
/// bracket, without the brackets.
pub open spec fn app_version(parts: Seq<Seq<char>>) -> Seq<char> {
    let k = first_bracketed(parts, 0);
    if k < parts.len() {
        strip(parts[k], "()"@)
    } else {
        Seq::empty()
    }
}

/// The latest version in a line of words: the word after the first that
/// holds an arrow, without round brackets.
pub open spec fn app_latest(parts: Seq<Seq<char>>) -> Option<Seq<char>> {
    let k = first_arrow(parts, 0);
    if k + 1 < parts.len() && strip(parts[k + 1], "()"@).len() > 0 {
        Some(strip(parts[k + 1], "()"@))
    } else {
        None
    }
}

/// The index of the first of `parts` from `from` on that opens a round
/// bracket.
pub fn bracket_index(parts: &Vec<Vec<char>>, from: usize) -> (r: usize)
    requires
        from <= parts.len(),
    ensures
        r == first_bracketed(seqs_of(parts@), from as int),
        from <= r <= parts.len(),
{
    let mut i: usize = from;
    while i < parts.len()
        invariant
            from <= i <= parts.len(),
            first_bracketed(seqs_of(parts@), from as int) == first_bracketed(
                seqs_of(parts@),
                i as int,
            ),
        decreases parts.len() - i,
    {
        assert(seqs_of(parts@)[i as int] == parts@[i as int]@);
        if parts[i].len() > 0 && parts[i][0] == '(' {
            return i;
        }
        i = i + 1;
    }
    i
}

/// The index of the first of `parts` that holds an arrow.
pub fn arrow_index(parts: &Vec<Vec<char>>) -> (r: usize)
    ensures
        r == first_arrow(seqs_of(parts@), 0),
        r <= parts.len(),
{
    let arrow = chars_of("->");
    let mut i: usize = 0;
    while i < parts.len()
        invariant
            i <= parts.len(),
            arrow@ == "->"@,
            first_arrow(seqs_of(parts@), 0) == first_arrow(seqs_of(parts@), i as int),
        decreases parts.len() - i,
    {
        assert(seqs_of(parts@)[i as int] == parts@[i as int]@);
        if find(&parts[i], &arrow).is_some() {
            return i;
        }
        i = i + 1;
    }
    i
}

/// The name and the version of the application in a line of at least two
/// words.
pub fn name_and_version(parts: &Vec<Vec<char>>) -> (r: (String, String))
    requires
        parts.len() >= 2,
    ensures
        r.0@ == app_name(seqs_of(parts@)),
        r.1@ == app_version(seqs_of(parts@)),
{
    let end = bracket_index(parts, 1);
    let name = join_chars(&parts_between(parts, 1, end), " ");
    let name = if name.len() == 0 {
        string_of(&parts[0])
    } else {
        string_of(&name)
    };
    let k = bracket_index(parts, 0);
    let version = if k < parts.len() {
        string_of(&strip_both(&parts[k], "()"))
    } else {
        String::new()
    };
    (name, version)
}

/// Reads a line of `mas list`: an id, a name, and a version in round
/// brackets.
pub struct ListLine;

impl LineReader for ListLine {
    open spec fn reads(&self, line: Seq<char>) -> Option<PackageView> {
        let parts = words(trim(line));
        if parts.len() < 2 {
            None
        } else {
            Some(
                PackageView {
                    installed_path: Some(INSTALL_PATH@),
                    ..bare_package(app_name(parts), app_version(parts), "mas"@)
                },
            )
        }
    }

    fn read(&self, line: &Vec<char>) -> (r: Option<Package>) {
        let parts = split_words(&trimmed(line));
        if parts.len() < 2 {
            None
        } else {
            let (name, version) = name_and_version(&parts);
            let mut p = Package::bare(name, version, copy_str("mas"));
            p.installed_path = Some(copy_str(INSTALL_PATH));
            Some(p)
        }
    }
}

/// Reads a line of `mas search`: an id and a name.
pub struct SearchLine;

impl LineReader for SearchLine {
    open spec fn reads(&self, line: Seq<char>) -> Option<PackageView> {
        let parts = words(trim(line));
        if parts.len() < 2 {
            None
        } else {
            let name = join(parts.skip(1), " "@);
            Some(
                bare_package(
                    if name.len() == 0 {
                        parts[0]
                    } else {
                        name
                    },
                    Seq::empty(),
                    "mas"@,
                ),
            )
        }
    }

    fn read(&self, line: &Vec<char>) -> (r: Option<Package>) {
        let parts = split_words(&trimmed(line));
        if parts.len() < 2 {
            None
        } else {
            let rest = parts_between(&parts, 1, parts.len());
            assert(seqs_of(parts@).subrange(1, parts.len() as int) == seqs_of(parts@).skip(1));
            let name = join_chars(&rest, " ");
            let name = if name.len() == 0 {
                string_of(&parts[0])
            } else {
                string_of(&name)
            };
            Some(Package::bare(name, String::new(), copy_str("mas")))
        }
    }
}

/// Reads a line of `mas outdated`: an id, a name, the installed version in
/// round brackets, an arrow, and the latest version in round brackets.
pub struct OutdatedLine;

impl LineReader for OutdatedLine {
    open spec fn reads(&self, line: Seq<char>) -> Option<PackageView> {
        let parts = words(trim(line));
        if parts.len() < 2 {
            None
        } else {
            Some(
                PackageView {
                    installed_path: Some(INSTALL_PATH@),
                    outdated: true,
                    latest_version: app_latest(parts),
                    ..bare_package(app_name(parts), app_version(parts), "mas"@)
                },
            )
        }
    }

    fn read(&self, line: &Vec<char>) -> (r: Option<Package>) {
        let parts = split_words(&trimmed(line));
        if parts.len() < 2 {
            None
        } else {
            let (name, version) = name_and_version(&parts);
            let mut p = Package::bare(name, version, copy_str("mas"));
            p.installed_path = Some(copy_str(INSTALL_PATH));
            p.outdated = true;
            let k = arrow_index(&parts);
            if k < parts.len() && k + 1 < parts.len() {
                let latest = strip_both(&parts[k + 1], "()");
                if latest.len() > 0 {
                    p.latest_version = Some(string_of(&latest));
                }
            }
            Some(p)
        }
    }
}

/// The keys of `mas info`.
pub open spec fn info_keys() -> InfoKeys {
    InfoKeys { version: "Version:", description: "Description:", homepage: None, license: None }
}

impl MasManager {
    pub fn new(cache: Arc<Cache>) -> (m: MasManager)
        ensures
            m.store() == cache,
    {
        MasManager { cache }
    }

    /// The cache that the adapter reads and writes.
    pub closed spec fn store(&self) -> Arc<Cache> {
        self.cache
    }

    /// The cache that the adapter reads and writes.
    pub fn cache(&self) -> (r: &Arc<Cache>)
        ensures
            *r == self.store(),
    {
        &self.cache
    }

    /// The applications that the output of `mas list` names.
    pub fn parse_list_output(&self, output: &str) -> (r: Vec<Package>)
        ensures
            package_views(r@) == read_lines(ListLine, output@, 0),
    {
        parse_lines(&ListLine, output, 0)
    }

    /// The applications that the output of `mas search` names, after a
    /// heading line.
    pub fn parse_search_output(&self, output: &str) -> (r: Vec<Package>)
        ensures
            package_views(r@) == read_lines(SearchLine, output@, 1),
    {
        parse_lines(&SearchLine, output, 1)
    }

    /// The application `name` with what the output of `mas info` says of it.
    pub fn parse_info_output(&self, name: &str, output: &str) -> (p: Package)
        ensures
            p@ == described(name@, "mas"@, output@, info_keys(), Some(INSTALL_PATH@)),
    {
        parse_info(
            name,
            "mas",
            output,
            &InfoKeys {
                version: "Version:",
                description: "Description:",
                homepage: None,
                license: None,
            },
            Some(INSTALL_PATH),
        )
    }

    /// The applications that the output of `mas outdated` names.
    pub fn parse_outdated_output(&self, output: &str) -> (r: Vec<Package>)
        ensures
            package_views(r@) == read_lines(OutdatedLine, output@, 0),
    {
        parse_lines(&OutdatedLine, output, 0)
    }
}

impl MasManager {
    /// The arguments that list the installed applications.
    pub fn list_args() -> (r: Vec<String>)
        ensures
            views_of(r@) == seq!["list"@],
    {
        let mut r: Vec<String> = Vec::new();
        r.push(copy_str("list"));
        assert(views_of(r@) =~= seq!["list"@]);
        r
    }

    /// The arguments that search for `query`.
    pub fn search_args(query: &str) -> (r: Vec<String>)
        ensures
            views_of(r@) == seq!["search"@, query@],
    {
        let mut r: Vec<String> = Vec::new();
        r.push(copy_str("search"));
        r.push(copy_str(query));
        assert(views_of(r@) =~= seq!["search"@, query@]);
        r
    }

    /// The arguments that describe the application `name`.
    pub fn info_args(name: &str) -> (r: Vec<String>)
        ensures
            views_of(r@) == seq!["info"@, name@],
    {
        let mut r: Vec<String> = Vec::new();
        r.push(copy_str("info"));
        r.push(copy_str(name));
        assert(views_of(r@) =~= seq!["info"@, name@]);
        r
    }

    /// The arguments that install the application `name`.
    pub fn install_args(name: &str) -> (r: Vec<String>)
        ensures
            views_of(r@) == seq!["install"@, name@],
    {
        let mut r: Vec<String> = Vec::new();
        r.push(copy_str("install"));
        r.push(copy_str(name));
        assert(views_of(r@) =~= seq!["install"@, name@]);
        r
    }

    /// The arguments that upgrade the application `name`.
    pub fn upgrade_args(name: &str) -> (r: Vec<String>)
        ensures
            views_of(r@) == seq!["upgrade"@, name@],
    {
        let mut r: Vec<String> = Vec::new();
        r.push(copy_str("upgrade"));
        r.push(copy_str(name));
        assert(views_of(r@) =~= seq!["upgrade"@, name@]);
        r
    }

    /// The arguments that list the outdated applications.
    pub fn outdated_args() -> (r: Vec<String>)
        ensures
            views_of(r@) == seq!["outdated"@],
    {
        let mut r: Vec<String> = Vec::new();
        r.push(copy_str("outdated"));
        assert(views_of(r@) =~= seq!["outdated"@]);
        r
    }
}

impl PackageManager for MasManager {
    open spec fn title(&self) -> Seq<char> {
        "mas"@
    }

    open spec fn key(&self) -> Seq<char> {
        "mas"@
    }

    open spec fn advertised(&self) -> Seq<Capability> {
        seq![Capability::ListInstalled, Capability::SearchRemote]
    }

    fn name(&self) -> (r: &str) {
        "mas"
    }

    fn cache_key(&self) -> (r: &str) {
        "mas"
    }

    fn capabilities(&self) -> (r: Vec<Capability>) {
        let mut v: Vec<Capability> = Vec::new();
        v.push(Capability::ListInstalled);
        v.push(Capability::SearchRemote);
        assert(v@ =~= self.advertised());
        v
    }
}

} // verus!
