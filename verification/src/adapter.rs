//! What the adapters share: reading an output line by line, and building
//! the arguments of a command.

use vstd::prelude::*;
use crate::error::BoxyError;
use crate::package::{bare_package, package_views, Package, PackageView};
use crate::text::{
    chars_of, copy_opt, copy_str, decimal, has_prefix, join, join3, join_chars, join_strings, lines,
    lines_after, opt_view, push_decimal, push_str, remove_all, same_text, seqs_of, split_lines,
    split_words, starts_with, string_of, strip, strip_both, tail_of, trim, trimmed, views_of,
    without, words,
};

verus! {

/// The view of an optional package.
pub open spec fn opt_package(o: Option<Package>) -> Option<PackageView> {
    match o {
        Some(p) => Some(p@),
        None => None,
    }
}

/// A reader of one line of a manager's output.
pub trait LineReader {
    /// What a line says: a package, or nothing.
    spec fn reads(&self, line: Seq<char>) -> Option<PackageView>;

    /// What a line says: a package, or nothing.
    fn read(&self, line: &Vec<char>) -> (r: Option<Package>)
        ensures
            opt_package(r) == self.reads(line@),
    ;
}

/// What the first `n` of `rows` say to `reader`, in order.
pub open spec fn gather<R: LineReader>(reader: R, rows: Seq<Seq<char>>, n: int) -> Seq<
    PackageView,
>
    decreases n,
{
    if n <= 0 {
        Seq::empty()
    } else {
        match reader.reads(rows[n - 1]) {
            Some(p) => gather(reader, rows, n - 1).push(p),
            None => gather(reader, rows, n - 1),
        }
    }
}

/// What the lines of `output` after the first `skip` say to `reader`.
pub open spec fn read_lines<R: LineReader>(reader: R, output: Seq<char>, skip: int) -> Seq<
    PackageView,
> {
    let rows = lines_after(output, skip);
    gather(reader, rows, rows.len() as int)
}

/// The packages that the lines of `output` after the first `skip` name.
pub fn parse_lines<R: LineReader>(reader: &R, output: &str, skip: usize) -> (r: Vec<Package>)
    ensures
        package_views(r@) == read_lines(*reader, output@, skip as int),
{
    let text = chars_of(output);
    let all = split_lines(&text);
    let mut out: Vec<Package> = Vec::new();
    let ghost rows = lines_after(output@, skip as int);
    if all.len() < skip {
        assert(package_views(out@) =~= gather(*reader, rows, 0));
        return out;
    }
    let mut i: usize = skip;
    assert(package_views(out@) =~= gather(*reader, rows, 0));
    while i < all.len()
        invariant
            skip <= i <= all.len(),
            seqs_of(all@) == lines(output@),
            rows == lines_after(output@, skip as int),
            package_views(out@) == gather(*reader, rows, i - skip),
        decreases all.len() - i,
    {
        assert(rows[i - skip] == all@[i as int]@);
        match reader.read(&all[i]) {
            Some(p) => {
                let ghost before = package_views(out@);
                out.push(p);
                assert(package_views(out@) =~= before.push(p@));
            },
            None => {},
        }
        i = i + 1;
    }
    out
}

/// `name`, then `sep` and `version` where a version is asked for.
pub open spec fn target(name: Seq<char>, version: Option<Seq<char>>, sep: Seq<char>) -> Seq<
    char,
> {
    match version {
        Some(v) => name + sep + v,
        None => name,
    }
}

/// The view of an optional text.
pub open spec fn str_view(o: Option<&str>) -> Option<Seq<char>> {
    match o {
        Some(s) => Some(s@),
        None => None,
    }
}

/// The package to install as the manager's command line names it.
pub fn install_target(name: &str, version: Option<&str>, sep: &str) -> (r: String)
    ensures
        r@ == target(name@, str_view(version), sep@),
{
    match version {
        Some(v) => join3(name, sep, v),
        None => copy_str(name),
    }
}

/// The number that the standard library's default hasher gives for a path.
pub uninterp spec fn path_digest(dir: Seq<char>) -> u64;

/// A hash of the path `dir`, from `std::hash::BuildHasher::hash_one` with
/// the default hasher. The result is a function of the path alone: every
/// default hasher made without keys is the same as every other.
#[verifier::external_body]
fn path_hash(dir: &str) -> (r: u64)
    ensures
        r == path_digest(dir@),
{
    std::hash::BuildHasher::hash_one(
        &std::hash::BuildHasherDefault::<std::collections::hash_map::DefaultHasher>::default(),
        std::path::Path::new(dir),
    )
}

/// The cache key of a scoped manager: the manager's name and its scope,
/// then the hash of the working directory where there is one.
pub open spec fn scope_key(manager: Seq<char>, global: bool, hash: Option<u64>) -> Seq<char> {
    let base = manager + if global {
        "-global"@
    } else {
        "-local"@
    };
    match hash {
        Some(h) => base + "-"@ + decimal(h as nat),
        None => base,
    }
}

/// The cache key of a scoped manager, given the hash of its working
/// directory.
pub fn key_for_scope(manager: &str, global: bool, hash: Option<u64>) -> (r: String)
    ensures
        r@ == scope_key(manager@, global, hash),
{
    let mut out = chars_of(manager);
    if global {
        push_str(&mut out, "-global");
    } else {
        push_str(&mut out, "-local");
    }
    match hash {
        Some(h) => {
            push_str(&mut out, "-");
            push_decimal(&mut out, h);
        },
        None => {},
    }
    string_of(&out)
}

/// The hash of the working directory, where there is one.
pub open spec fn digest_of(workdir: Option<String>) -> Option<u64> {
    match workdir {
        Some(dir) => Some(path_digest(dir@)),
        None => None,
    }
}

/// The cache key of a scoped manager. A working directory enters the key by
/// its hash, which keeps the key short.
pub fn build_cache_key(manager: &str, global: bool, workdir: &Option<String>) -> (r: String)
    ensures
        r@ == scope_key(manager@, global, digest_of(*workdir)),
{
    match workdir {
        Some(dir) => {
            let h = path_hash(dir.as_str());
            key_for_scope(manager, global, Some(h))
        },
        None => key_for_scope(manager, global, None),
    }
}

/// How the run of a command ended.
#[derive(Debug)]
pub enum Run {
    /// The command did not end in time.
    TimedOut,
    /// The command could not be started.
    NotStarted,
    /// The command ran and ended.
    Exited { success: bool, code: Option<i32>, stdout: String },
}

/// The exit code that a failure reports: -1 where the command gave none.
pub open spec fn code_of(code: Option<i32>) -> i32 {
    match code {
        Some(c) => c,
        None => -1i32,
    }
}

/// What the run of a command of `manager` with the arguments `args` comes
/// to: its output where it went well, `CommandTimeout` where it did not end
/// in time, else `CommandFailed` with the command line and the exit code.
pub fn command_outcome(manager: &str, args: &Vec<String>, run: Run) -> (r: Result<
    String,
    BoxyError,
>)
    ensures
        match run {
            Run::TimedOut => r matches Err(BoxyError::CommandTimeout),
            Run::NotStarted => r matches Err(
                BoxyError::CommandFailed { manager: m, command, exit_code },
            ) && m@ == manager@ && command@ == join(views_of(args@), " "@)
                && exit_code == -1i32,
            Run::Exited { success, code, stdout } => if success {
                r matches Ok(out) && out@ == stdout@
            } else {
                r matches Err(BoxyError::CommandFailed { manager: m, command, exit_code })
                    && m@ == manager@ && command@ == join(views_of(args@), " "@)
                    && exit_code == code_of(code)
            },
        },
{
    match run {
        Run::TimedOut => Err(BoxyError::CommandTimeout),
        Run::NotStarted => Err(
            BoxyError::CommandFailed {
                manager: copy_str(manager),
                command: join_strings(args, " "),
                exit_code: -1,
            },
        ),
        Run::Exited { success, code, stdout } => {
            if success {
                Ok(stdout)
            } else {
                Err(
                    BoxyError::CommandFailed {
                        manager: copy_str(manager),
                        command: join_strings(args, " "),
                        exit_code: match code {
                            Some(c) => c,
                            None => -1,
                        },
                    },
                )
            }
        },
    }
}

/// `flag` before `args` where `flagged`, else `args` alone: the command
/// line of a manager that marks its global scope by a leading argument.
pub fn with_flag(flagged: bool, flag: &str, args: Vec<String>) -> (r: Vec<String>)
    ensures
        views_of(r@) == if flagged {
            seq![flag@] + views_of(args@)
        } else {
            views_of(args@)
        },
{
    if flagged {
        let mut out: Vec<String> = Vec::new();
        out.push(copy_str(flag));
        let mut rest = args;
        let ghost tail = views_of(rest@);
        let ghost head = views_of(out@);
        out.append(&mut rest);
        assert(views_of(out@) =~= head + tail);
        assert(head =~= seq![flag@]);
        out
    } else {
        args
    }
}

/// Reads a line of columns: a name, then a version.
pub struct NameVersion {
    pub manager: &'static str,
    /// Whether a line without a version is passed over.
    pub version_required: bool,
    /// Where the packages are installed, if that is the same for all.
    pub installed_path: Option<&'static str>,
}

impl LineReader for NameVersion {
    open spec fn reads(&self, line: Seq<char>) -> Option<PackageView> {
        let parts = words(trim(line));
        if parts.len() == 0 || (self.version_required && parts.len() < 2) {
            None
        } else {
            Some(
                PackageView {
                    installed_path: str_view(self.installed_path),
                    ..bare_package(
                        parts[0],
                        if parts.len() >= 2 {
                            parts[1]
                        } else {
                            Seq::empty()
                        },
                        self.manager@,
                    )
                },
            )
        }
    }

    fn read(&self, line: &Vec<char>) -> (r: Option<Package>) {
        let parts = split_words(&trimmed(line));
        if parts.len() == 0 || (self.version_required && parts.len() < 2) {
            None
        } else {
            let version = if parts.len() >= 2 {
                string_of(&parts[1])
            } else {
                String::new()
            };
            let mut p = Package::bare(
                string_of(&parts[0]),
                version,
                copy_str(self.manager),
            );
            p.installed_path = owned(self.installed_path);
            Some(p)
        }
    }
}

/// Reads a line of a search result: a name, a version in round brackets,
/// a dash and a description.
pub struct SearchLine {
    pub manager: &'static str,
    /// Whether the description is kept.
    pub with_description: bool,
}

impl LineReader for SearchLine {
    open spec fn reads(&self, line: Seq<char>) -> Option<PackageView> {
        let parts = words(trim(line));
        if parts.len() == 0 {
            None
        } else {
            Some(
                PackageView {
                    description: if self.with_description && parts.len() > 3 {
                        Some(join(parts.skip(3), " "@))
                    } else {
                        None
                    },
                    ..bare_package(
                        parts[0],
                        if parts.len() >= 2 {
                            strip(parts[1], "()"@)
                        } else {
                            Seq::empty()
                        },
                        self.manager@,
                    )
                },
            )
        }
    }

    fn read(&self, line: &Vec<char>) -> (r: Option<Package>) {
        let parts = split_words(&trimmed(line));
        if parts.len() == 0 {
            None
        } else {
            let version = if parts.len() >= 2 {
                string_of(&strip_both(&parts[1], "()"))
            } else {
                String::new()
            };
            let mut p = Package::bare(
                string_of(&parts[0]),
                version,
                copy_str(self.manager),
            );
            if self.with_description && parts.len() > 3 {
                let rest = tail_of(&parts, 3);
                p.description = Some(
                    string_of(&join_chars(&rest, " ")),
                );
            }
            Some(p)
        }
    }
}

/// Reads a line of a list of outdated packages: a name, the installed
/// version, and the latest version, which may stand in round brackets.
pub struct OutdatedLine {
    pub manager: &'static str,
}

impl LineReader for OutdatedLine {
    open spec fn reads(&self, line: Seq<char>) -> Option<PackageView> {
        let parts = words(trim(line));
        if parts.len() < 3 {
            None
        } else {
            Some(
                PackageView {
                    outdated: true,
                    latest_version: Some(strip(parts[2], "()"@)),
                    ..bare_package(parts[0], parts[1], self.manager@)
                },
            )
        }
    }

    fn read(&self, line: &Vec<char>) -> (r: Option<Package>) {
        let parts = split_words(&trimmed(line));
        if parts.len() < 3 {
            None
        } else {
            let mut p = Package::bare(
                string_of(&parts[0]),
                string_of(&parts[1]),
                copy_str(self.manager),
            );
            p.outdated = true;
            p.latest_version = Some(
                string_of(&strip_both(&parts[2], "()")),
            );
            Some(p)
        }
    }
}

/// The value of the last of the first `n` lines that starts with `key`,
/// white space around the line aside: the line without every occurrence of
/// the key, and without white space around what is left.
pub open spec fn field_among(rows: Seq<Seq<char>>, key: Seq<char>, n: int) -> Option<Seq<char>>
    decreases n,
{
    if n <= 0 {
        None
    } else if has_prefix(trim(rows[n - 1]), key) {
        Some(trim(without(trim(rows[n - 1]), key)))
    } else {
        field_among(rows, key, n - 1)
    }
}

/// The value that the lines of `output` give for `key`.
pub open spec fn field_of(output: Seq<char>, key: Seq<char>) -> Option<Seq<char>> {
    field_among(lines(output), key, lines(output).len() as int)
}

/// The value that the lines of `output` give for `key`, as in
/// `Version: 1.2`: the last line that starts with the key counts.
pub fn field_value(output: &str, key: &str) -> (r: Option<String>)
    ensures
        opt_view(r) == field_of(output@, key@),
{
    let all = split_lines(&chars_of(output));
    let ghost rows = lines(output@);
    let mut n: usize = all.len();
    while n > 0
        invariant
            n <= all.len(),
            seqs_of(all@) == rows,
            field_of(output@, key@) == field_among(rows, key@, n as int),
        decreases n,
    {
        assert(rows[n - 1] == all@[n - 1]@);
        let line = trimmed(&all[n - 1]);
        if starts_with(&line, key) {
            let rest = remove_all(&line, key);
            return Some(string_of(&trimmed(&rest)));
        }
        n = n - 1;
    }
    None
}

/// The text of an optional value; empty where there is none.
pub fn text_or_empty(o: Option<String>) -> (r: String)
    ensures
        r@ == match o {
            Some(s) => s@,
            None => Seq::empty(),
        },
{
    match o {
        Some(s) => s,
        None => String::new(),
    }
}

/// What a look at the details of an installed package says of it: it is
/// outdated where the details name a latest version other than the
/// installed one.
pub open spec fn outdated_entry(installed: PackageView, info: PackageView, manager: Seq<char>)
    -> Option<PackageView> {
    match info.latest_version {
        Some(latest) if latest != installed.version => Some(
            PackageView {
                installed_path: installed.installed_path,
                outdated: true,
                latest_version: Some(latest),
                ..bare_package(installed.name, installed.version, manager)
            },
        ),
        _ => None,
    }
}

/// What a look at the details of an installed package says of it.
pub fn outdated_from_info(installed: &Package, info: &Package, manager: &str) -> (r: Option<
    Package,
>)
    ensures
        opt_package(r) == outdated_entry(installed@, info@, manager@),
{
    match &info.latest_version {
        Some(latest) => {
            if same_text(latest.as_str(), installed.version.as_str()) {
                None
            } else {
                let mut p = Package::bare(
                    installed.name.clone(),
                    installed.version.clone(),
                    copy_str(manager),
                );
                p.installed_path = copy_opt(&installed.installed_path);
                p.outdated = true;
                p.latest_version = Some(latest.clone());
                Some(p)
            }
        },
        None => None,
    }
}


/// An owned copy of an optional text.
pub fn owned(o: Option<&str>) -> (r: Option<String>)
    ensures
        opt_view(r) == str_view(o),
{
    match o {
        Some(s) => Some(copy_str(s)),
        None => None,
    }
}

/// The keys under which the details of a package stand in the output of a
/// manager, as in `Version: 1.2`.
pub struct InfoKeys {
    pub version: &'static str,
    pub description: &'static str,
    pub homepage: Option<&'static str>,
    pub license: Option<&'static str>,
}

/// The value under an optional key.
pub open spec fn optional_field_of(output: Seq<char>, key: Option<&'static str>) -> Option<
    Seq<char>,
> {
    match key {
        Some(k) => field_of(output, k@),
        None => None,
    }
}

/// The package `name` of `manager` with the details that `output` gives
/// under `keys`. The version is empty where the output names none.
pub open spec fn described(
    name: Seq<char>,
    manager: Seq<char>,
    output: Seq<char>,
    keys: InfoKeys,
    installed_path: Option<Seq<char>>,
) -> PackageView {
    PackageView {
        description: field_of(output, keys.description@),
        homepage: optional_field_of(output, keys.homepage),
        license: optional_field_of(output, keys.license),
        installed_path,
        ..bare_package(
            name,
            match field_of(output, keys.version@) {
                Some(v) => v,
                None => Seq::empty(),
            },
            manager,
        )
    }
}

/// The package `name` of `manager` with the details that `output` gives.
pub fn parse_info(
    name: &str,
    manager: &str,
    output: &str,
    keys: &InfoKeys,
    installed_path: Option<&str>,
) -> (p: Package)
    ensures
        p@ == described(name@, manager@, output@, *keys, str_view(installed_path)),
{
    let version = text_or_empty(field_value(output, keys.version));
    let mut p = Package::bare(copy_str(name), version, copy_str(manager));
    p.description = field_value(output, keys.description);
    p.homepage = match keys.homepage {
        Some(k) => field_value(output, k),
        None => None,
    };
    p.license = match keys.license {
        Some(k) => field_value(output, k),
        None => None,
    };
    p.installed_path = owned(installed_path);
    p
}


/// The path that the first line of an output names: the line without
/// white space around it, where there is a line and it is not blank.
pub open spec fn first_path(output: Seq<char>) -> Option<Seq<char>> {
    let rows = lines(output);
    if rows.len() == 0 || trim(rows[0]).len() == 0 {
        None
    } else {
        Some(trim(rows[0]))
    }
}

/// The path that the first line of an output names.
pub fn first_line_path(output: &str) -> (r: Option<String>)
    ensures
        opt_view(r) == first_path(output@),
{
    let all = split_lines(&chars_of(output));
    if all.len() == 0 {
        return None;
    }
    assert(lines(output@)[0] == all@[0]@);
    let t = trimmed(&all[0]);
    if t.len() == 0 {
        None
    } else {
        Some(string_of(&t))
    }
}

} // verus!
