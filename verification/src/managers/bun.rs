//! The adapter for bun.

use std::sync::Arc;
use vstd::prelude::*;
use crate::adapter::{
    build_cache_key, described, digest_of, install_target, opt_package, outdated_entry,
    outdated_from_info, parse_info, parse_lines, read_lines, scope_key, str_view, target, with_flag,
    InfoKeys, LineReader, NameVersion,
};
use crate::cache::{join_path, path_join, Cache};
use crate::manager::PackageManager;
use crate::package::{bare_package, package_views, Capability, Package, PackageView};
use crate::text::{
    chars_of, copy_range, copy_str, has_prefix, opt_view, split, split_on, starts_with, string_of,
    trim, trimmed, views_of,
};

verus! {

/// The adapter for bun: its command lines and the readers of its output.
pub struct BunManager {
    cache: Arc<Cache>,
    global: bool,
    workdir: Option<String>,
    cache_key: String,
}

/// Where bun keeps globally installed packages, as the listing shows it.
pub const GLOBAL_PATH: &'static str = "~/.bun/install/global";

/// Reads a line of `bun pm ls`: a name, `@` and a version. The heading
/// starts with `bun`.
pub struct ListLine {
    pub global: bool,
}

impl LineReader for ListLine {
    open spec fn reads(&self, line: Seq<char>) -> Option<PackageView> {
        let t = trim(line);
        if t.len() == 0 || has_prefix(t, "bun"@) {
            None
        } else {
            let pieces = split(t, '@');
            Some(
                PackageView {
                    installed_path: if self.global {
                        Some(GLOBAL_PATH@)
                    } else {
                        None
                    },
                    ..if pieces.len() >= 2 {
                        bare_package(pieces[0], pieces[1], "bun"@)
                    } else {
                        bare_package(t, Seq::empty(), "bun"@)
                    }
                },
            )
        }
    }

    fn read(&self, line: &Vec<char>) -> (r: Option<Package>) {
        let t = trimmed(line);
        if t.len() == 0 || starts_with(&t, "bun") {
            None
        } else {
            let pieces = split_on(&t, '@');
            let mut p = if pieces.len() >= 2 {
                Package::bare(string_of(&pieces[0]), string_of(&pieces[1]), copy_str("bun"))
            } else {
                Package::bare(string_of(&t), String::new(), copy_str("bun"))
            };
            if self.global {
                p.installed_path = Some(copy_str(GLOBAL_PATH));
            }
            Some(p)
        }
    }
}

/// How a line of `bun pm search` is read: a name, and a version where
/// there is one.
pub open spec fn search_reader() -> NameVersion {
    NameVersion { manager: "bun", version_required: false, installed_path: None }
}

/// The keys of `bun pm info`.
pub open spec fn info_keys() -> InfoKeys {
    InfoKeys { version: "version:", description: "description:", homepage: None, license: None }
}

/// `path` below `home` where it starts with `~/`, else as it is; nothing
/// where it starts with `~/` and no home directory is known.
pub open spec fn expanded(path: Seq<char>, home: Option<Seq<char>>) -> Option<Seq<char>> {
    if has_prefix(path, "~/"@) {
        match home {
            Some(h) => Some(path_join(h, path.skip(2))),
            None => None,
        }
    } else {
        Some(path)
    }
}

impl BunManager {
    pub fn new(cache: Arc<Cache>, global: bool, workdir: Option<String>) -> (m: BunManager)
        ensures
            m.store() == cache,
            m.directory() == workdir,
            m.global() == (global),
            m.key() == scope_key("bun"@, m.global(), digest_of(workdir)),
    {
        let cache_key = build_cache_key("bun", global, &workdir);
        BunManager { cache, global, workdir, cache_key }
    }

    /// Whether the adapter works on the global installation.
    pub closed spec fn global(&self) -> bool {
        self.global
    }

    /// The cache that the adapter reads and writes.
    pub closed spec fn store(&self) -> Arc<Cache> {
        self.cache
    }

    /// The cache that the adapter reads and writes.
    pub fn cache(&self) -> (r: &Arc<Cache>)
        ensures
            *r == self.store(),
    {
        &self.cache
    }

    /// Whether the adapter works on the global installation.
    pub fn is_global(&self) -> (r: bool)
        ensures
            r == self.global(),
    {
        self.global
    }

    /// The working directory of a local installation.
    pub closed spec fn directory(&self) -> Option<String> {
        self.workdir
    }

    /// The working directory of a local installation.
    pub fn workdir(&self) -> (r: &Option<String>)
        ensures
            *r == self.directory(),
    {
        &self.workdir
    }

    /// The command line for `args`: `--global` goes first for the global
    /// installation.
    pub fn command_line(&self, args: Vec<String>) -> (r: Vec<String>)
        ensures
            views_of(r@) == if self.global() {
                seq!["--global"@] + views_of(args@)
            } else {
                views_of(args@)
            },
    {
        with_flag(self.global, "--global", args)
    }

    /// `path` below the home directory where it starts with `~/`.
    pub fn expand_home_path(path: &str, home: Option<&str>) -> (r: Option<String>)
        ensures
            opt_view(r) == expanded(path@, str_view(home)),
    {
        let v = chars_of(path);
        if starts_with(&v, "~/") {
            proof {
                reveal_strlit("~/");
            }
            match home {
                Some(h) => {
                    let rest = copy_range(&v, 2, v.len());
                    assert(rest@ == v@.skip(2));
                    Some(join_path(h, string_of(&rest).as_str()))
                },
                None => None,
            }
        } else {
            Some(copy_str(path))
        }
    }

    /// The packages that the output of `bun pm ls` names.
    pub fn parse_list_output(&self, output: &str) -> (r: Vec<Package>)
        ensures
            package_views(r@) == read_lines(ListLine { global: self.global() }, output@, 0),
    {
        parse_lines(&ListLine { global: self.global }, output, 0)
    }

    /// The packages that the output of `bun pm search` names.
    pub fn parse_search_output(&self, output: &str) -> (r: Vec<Package>)
        ensures
            package_views(r@) == read_lines(search_reader(), output@, 0),
    {
        parse_lines(
            &NameVersion { manager: "bun", version_required: false, installed_path: None },
            output,
            0,
        )
    }

    /// The package `name` with what the output of `bun pm info` says of it.
    pub fn parse_info_output(&self, name: &str, output: &str) -> (p: Package)
        ensures
            p@ == described(
                name@,
                "bun"@,
                output@,
                info_keys(),
                if self.global() {
                    Some(GLOBAL_PATH@)
                } else {
                    None
                },
            ),
    {
        parse_info(
            name,
            "bun",
            output,
            &InfoKeys {
                version: "version:",
                description: "description:",
                homepage: None,
                license: None,
            },
            if self.global {
                Some(GLOBAL_PATH)
            } else {
                None
            },
        )
    }

    /// What the details of an installed package say of it: it is outdated
    /// where they name a latest version other than the installed one.
    pub fn outdated_entry(&self, installed: &Package, info: &Package) -> (r: Option<Package>)
        ensures
            opt_package(r) == outdated_entry(installed@, info@, "bun"@),
    {
        outdated_from_info(installed, info, "bun")
    }
}

impl BunManager {
    /// The arguments that list the installed packages.
    pub fn list_args() -> (r: Vec<String>)
        ensures
            views_of(r@) == seq!["pm"@, "ls"@],
    {
        let mut r: Vec<String> = Vec::new();
        r.push(copy_str("pm"));
        r.push(copy_str("ls"));
        assert(views_of(r@) =~= seq!["pm"@, "ls"@]);
        r
    }

    /// The arguments that search for `query`.
    pub fn search_args(query: &str) -> (r: Vec<String>)
        ensures
            views_of(r@) == seq!["pm"@, "search"@, query@],
    {
        let mut r: Vec<String> = Vec::new();
        r.push(copy_str("pm"));
        r.push(copy_str("search"));
        r.push(copy_str(query));
        assert(views_of(r@) =~= seq!["pm"@, "search"@, query@]);
        r
    }

    /// The arguments that describe the package `name`.
    pub fn info_args(name: &str) -> (r: Vec<String>)
        ensures
            views_of(r@) == seq!["pm"@, "info"@, name@],
    {
        let mut r: Vec<String> = Vec::new();
        r.push(copy_str("pm"));
        r.push(copy_str("info"));
        r.push(copy_str(name));
        assert(views_of(r@) =~= seq!["pm"@, "info"@, name@]);
        r
    }

    /// The arguments that install `name`, at `version` where one is given.
    pub fn install_args(name: &str, version: Option<&str>, force: bool) -> (r: Vec<String>)
        ensures
            views_of(r@) == seq!["install"@] + (if force {
                seq!["--force"@]
            } else {
                Seq::empty()
            }) + seq![target(name@, str_view(version), "@"@)],
    {
        let mut r: Vec<String> = Vec::new();
        r.push(copy_str("install"));
        if force {
            r.push(copy_str("--force"));
        }
        r.push(install_target(name, version, "@"));
        assert(views_of(r@) =~= seq!["install"@] + (if force {
                seq!["--force"@]
            } else {
                Seq::empty()
            }) + seq![target(name@, str_view(version), "@"@)]);
        r
    }

    /// The arguments that update `name`.
    pub fn upgrade_args(name: &str) -> (r: Vec<String>)
        ensures
            views_of(r@) == seq!["update"@, name@],
    {
        let mut r: Vec<String> = Vec::new();
        r.push(copy_str("update"));
        r.push(copy_str(name));
        assert(views_of(r@) =~= seq!["update"@, name@]);
        r
    }

    /// The arguments that remove `name`.
    pub fn uninstall_args(name: &str, force: bool) -> (r: Vec<String>)
        ensures
            views_of(r@) == seq!["remove"@, name@] + (if force {
                seq!["--force"@]
            } else {
                Seq::empty()
            }),
    {
        let mut r: Vec<String> = Vec::new();
        r.push(copy_str("remove"));
        r.push(copy_str(name));
        if force {
            r.push(copy_str("--force"));
        }
        assert(views_of(r@) =~= seq!["remove"@, name@] + (if force {
                seq!["--force"@]
            } else {
                Seq::empty()
            }));
        r
    }
}

impl PackageManager for BunManager {
    open spec fn title(&self) -> Seq<char> {
        "bun"@
    }

    closed spec fn key(&self) -> Seq<char> {
        self.cache_key@
    }

    open spec fn advertised(&self) -> Seq<Capability> {
        seq![Capability::ListInstalled, Capability::SearchRemote, Capability::VersionSelection]
    }

    fn name(&self) -> (r: &str) {
        "bun"
    }

    fn cache_key(&self) -> (r: &str) {
        self.cache_key.as_str()
    }

    fn capabilities(&self) -> (r: Vec<Capability>) {
        let mut v: Vec<Capability> = Vec::new();
        v.push(Capability::ListInstalled);
        v.push(Capability::SearchRemote);
        v.push(Capability::VersionSelection);
        assert(v@ =~= self.advertised());
        v
    }
}

} // verus!
