//! The scope of an operation: the global installation of a manager, or the
//! one of a working directory.

use vstd::prelude::*;
use crate::adapter::str_view;
use crate::cache::{join_path, path_join};
use crate::manager::{scoped, supports_global};
use crate::text::{
    chars_of, copy_range, copy_str, has_prefix, join2, lowercase, lowered, opt_view, same_chars,
    starts_with, string_of, trim, trimmed,
};

verus! {

/// Where an operation works.
#[derive(Debug, Clone)]
pub struct ScopeConfig {
    pub global: bool,
    pub workdir: Option<String>,
}

/// What a `ScopeConfig` holds, as plain values.
pub struct ScopeView {
    pub global: bool,
    pub workdir: Option<Seq<char>>,
}

impl View for ScopeConfig {
    type V = ScopeView;

    open spec fn view(&self) -> ScopeView {
        ScopeView { global: self.global, workdir: opt_view(self.workdir) }
    }
}

/// Why a scope was refused.
#[derive(Debug)]
pub enum ScopeError {
    /// A directory was given without the local scope.
    DirWithoutLocal,
    /// The local scope was asked for without a directory.
    MissingDirectory,
    /// The directory starts at the home directory, which is not known.
    NoHome,
    /// The directory does not exist.
    NotADirectory,
    /// The scope is neither `global` nor `local`.
    UnsupportedScope { scope: String },
    /// The manager has no local scope.
    LocalUnsupported { manager: String },
}

/// What a `ScopeError` holds, as plain values.
pub enum ScopeErrorView {
    DirWithoutLocal,
    MissingDirectory,
    NoHome,
    NotADirectory,
    UnsupportedScope { scope: Seq<char> },
    LocalUnsupported { manager: Seq<char> },
}

impl View for ScopeError {
    type V = ScopeErrorView;

    open spec fn view(&self) -> ScopeErrorView {
        match self {
            ScopeError::DirWithoutLocal => ScopeErrorView::DirWithoutLocal,
            ScopeError::MissingDirectory => ScopeErrorView::MissingDirectory,
            ScopeError::NoHome => ScopeErrorView::NoHome,
            ScopeError::NotADirectory => ScopeErrorView::NotADirectory,
            ScopeError::UnsupportedScope { scope } => ScopeErrorView::UnsupportedScope {
                scope: scope@,
            },
            ScopeError::LocalUnsupported { manager } => ScopeErrorView::LocalUnsupported {
                manager: manager@,
            },
        }
    }
}

impl ScopeError {
    /// The text shown for the refusal.
    pub open spec fn description(self) -> Seq<char> {
        match self {
            ScopeError::DirWithoutLocal => "--dir 仅能与 --scope=local 一起使用"@,
            ScopeError::MissingDirectory => "缺少本地目录，请使用 --dir 指定"@,
            ScopeError::NoHome => "无法解析用户目录"@,
            ScopeError::NotADirectory => "目录不存在或不可访问"@,
            ScopeError::UnsupportedScope { scope } => "不支持的 scope: "@ + scope@,
            ScopeError::LocalUnsupported { manager } => manager@ + " 不支持本地范围"@,
        }
    }

    /// The text shown for the refusal.
    pub fn message(&self) -> (r: String)
        ensures
            r@ == self.description(),
    {
        match self {
            ScopeError::DirWithoutLocal => copy_str("--dir 仅能与 --scope=local 一起使用"),
            ScopeError::MissingDirectory => copy_str("缺少本地目录，请使用 --dir 指定"),
            ScopeError::NoHome => copy_str("无法解析用户目录"),
            ScopeError::NotADirectory => copy_str("目录不存在或不可访问"),
            ScopeError::UnsupportedScope { scope } => join2("不支持的 scope: ", scope.as_str()),
            ScopeError::LocalUnsupported { manager } => join2(manager.as_str(), " 不支持本地范围"),
        }
    }
}

/// The directory that `directory` names: its text without white space
/// around it, below `home` where it starts with `~/`.
pub open spec fn located(directory: Seq<char>, home: Option<Seq<char>>) -> Result<
    Seq<char>,
    ScopeErrorView,
> {
    let dir = trim(directory);
    if dir.len() == 0 {
        Err(ScopeErrorView::MissingDirectory)
    } else if has_prefix(dir, "~/"@) {
        match home {
            Some(h) => Ok(path_join(h, dir.skip(2))),
            None => Err(ScopeErrorView::NoHome),
        }
    } else {
        Ok(dir)
    }
}

/// The scope that was asked for, before the manager is looked at. `scope`
/// is compared in lowercase. Without a scope the flag `global` decides.
pub open spec fn requested(
    global: bool,
    scope: Option<Seq<char>>,
    directory: Option<Seq<char>>,
    home: Option<Seq<char>>,
) -> Result<ScopeView, ScopeErrorView> {
    let kind = match scope {
        Some(s) => Some(lowered(s)),
        None => None,
    };
    if directory is Some && kind != Some("local"@) {
        Err(ScopeErrorView::DirWithoutLocal)
    } else {
        match kind {
            None => Ok(ScopeView { global, workdir: None }),
            Some(k) => if k == "global"@ {
                Ok(ScopeView { global: true, workdir: None })
            } else if k == "local"@ {
                match located(
                    match directory {
                        Some(d) => d,
                        None => Seq::empty(),
                    },
                    home,
                ) {
                    Ok(path) => Ok(ScopeView { global: false, workdir: Some(path) }),
                    Err(e) => Err(e),
                }
            } else {
                Err(ScopeErrorView::UnsupportedScope { scope: k })
            },
        }
    }
}

/// The scope for the manager `name`: a manager without scopes ignores the
/// global scope and refuses a working directory.
pub open spec fn restricted(name: Option<Seq<char>>, scope: ScopeView) -> Result<
    ScopeView,
    ScopeErrorView,
> {
    match name {
        Some(n) => if scope.workdir is Some && !scoped(n) {
            Err(ScopeErrorView::LocalUnsupported { manager: n })
        } else {
            Ok(ScopeView { global: scope.global && scoped(n), ..scope })
        },
        None => Ok(scope),
    }
}

/// The scope that was asked for and the manager allows, where
/// `is_directory` says whether the directory asked for exists.
pub open spec fn resolved(
    name: Option<Seq<char>>,
    global: bool,
    scope: Option<Seq<char>>,
    directory: Option<Seq<char>>,
    home: Option<Seq<char>>,
    is_directory: bool,
) -> Result<ScopeView, ScopeErrorView> {
    match requested(global, scope, directory, home) {
        Err(e) => Err(e),
        Ok(asked) => if asked.workdir is Some && !is_directory {
            Err(ScopeErrorView::NotADirectory)
        } else {
            restricted(name, asked)
        },
    }
}

/// The view of the outcome of a resolution.
pub open spec fn outcome_view(r: Result<ScopeConfig, ScopeError>) -> Result<
    ScopeView,
    ScopeErrorView,
> {
    match r {
        Ok(c) => Ok(c@),
        Err(e) => Err(e@),
    }
}

/// The directory that `directory` names.
pub fn locate(directory: &str, home: Option<&str>) -> (r: Result<String, ScopeError>)
    ensures
        match located(
            directory@,
            match home {
                Some(h) => Some(h@),
                None => None,
            },
        ) {
            Ok(path) => r matches Ok(p) && p@ == path,
            Err(e) => r matches Err(x) && x@ == e,
        },
{
    let dir = trimmed(&chars_of(directory));
    if dir.len() == 0 {
        return Err(ScopeError::MissingDirectory);
    }
    if starts_with(&dir, "~/") {
        proof {
            reveal_strlit("~/");
        }
        match home {
            Some(h) => {
                let rest = copy_range(&dir, 2, dir.len());
                assert(rest@ == dir@.skip(2));
                Ok(join_path(h, string_of(&rest).as_str()))
            },
            None => Err(ScopeError::NoHome),
        }
    } else {
        Ok(string_of(&dir))
    }
}

/// The scope that was asked for, before the manager is looked at. `home`
/// is the user's home directory where it is known. The directory is not
/// looked up here.
pub fn requested_scope(global: bool, scope: Option<&str>, directory: Option<&str>, home: Option<
    &str,
>) -> (r: Result<ScopeConfig, ScopeError>)
    ensures
        outcome_view(r) == requested(
            global,
            match scope {
                Some(s) => Some(s@),
                None => None,
            },
            match directory {
                Some(d) => Some(d@),
                None => None,
            },
            match home {
                Some(h) => Some(h@),
                None => None,
            },
        ),
{
    let kind: Option<Vec<char>> = match scope {
        Some(s) => Some(chars_of(lowercase(s).as_str())),
        None => None,
    };
    let local = chars_of("local");
    let is_local = match &kind {
        Some(k) => same_chars(k, &local),
        None => false,
    };
    if directory.is_some() && !is_local {
        return Err(ScopeError::DirWithoutLocal);
    }
    match kind {
        None => Ok(ScopeConfig { global, workdir: None }),
        Some(k) => {
            if same_chars(&k, &chars_of("global")) {
                Ok(ScopeConfig { global: true, workdir: None })
            } else if is_local {
                let dir = match directory {
                    Some(d) => d,
                    None => "",
                };
                proof {
                    reveal_strlit("");
                    assert(""@ =~= Seq::<char>::empty());
                }
                match locate(dir, home) {
                    Ok(path) => Ok(ScopeConfig { global: false, workdir: Some(path) }),
                    Err(e) => Err(e),
                }
            } else {
                Err(ScopeError::UnsupportedScope { scope: string_of(&k) })
            }
        },
    }
}

/// The scope for the manager `name`.
pub fn restrict_scope(name: Option<&str>, scope: ScopeConfig) -> (r: Result<
    ScopeConfig,
    ScopeError,
>)
    ensures
        outcome_view(r) == restricted(
            match name {
                Some(n) => Some(n@),
                None => None,
            },
            scope@,
        ),
{
    match name {
        Some(n) => {
            let ok = supports_global(n);
            if scope.workdir.is_some() && !ok {
                Err(ScopeError::LocalUnsupported { manager: copy_str(n) })
            } else {
                Ok(ScopeConfig { global: scope.global && ok, workdir: scope.workdir })
            }
        },
        None => Ok(scope),
    }
}

/// The scope that was asked for and the manager allows. `is_directory`
/// says whether the directory that `requested_scope` names exists; it is
/// not read where no directory is asked for.
pub fn resolve_scope(
    manager_name: Option<&str>,
    global: bool,
    scope: Option<&str>,
    directory: Option<&str>,
    home: Option<&str>,
    is_directory: bool,
) -> (r: Result<ScopeConfig, ScopeError>)
    ensures
        outcome_view(r) == resolved(
            match manager_name {
                Some(n) => Some(n@),
                None => None,
            },
            global,
            match scope {
                Some(s) => Some(s@),
                None => None,
            },
            match directory {
                Some(d) => Some(d@),
                None => None,
            },
            match home {
                Some(h) => Some(h@),
                None => None,
            },
            is_directory,
        ),
{
    match requested_scope(global, scope, directory, home) {
        Err(e) => Err(e),
        Ok(asked) => {
            if asked.workdir.is_some() && !is_directory {
                Err(ScopeError::NotADirectory)
            } else {
                restrict_scope(manager_name, asked)
            }
        },
    }
}

/// Whether the flag for the global scope is dropped for the manager `name`:
/// the caller warns of it.
pub fn global_ignored(name: Option<&str>, asked: &ScopeConfig) -> (r: bool)
    ensures
        r == (name matches Some(n) && asked.global && !scoped(n@)),
{
    match name {
        Some(n) => asked.global && !supports_global(n),
        None => false,
    }
}


/// The scope that the desktop front end asks for: the global one where it
/// names none, and a directory counts for the local scope alone.
pub open spec fn desktop_requested(
    scope: Option<Seq<char>>,
    directory: Option<Seq<char>>,
    home: Option<Seq<char>>,
    is_directory: bool,
) -> Result<ScopeView, ScopeErrorView> {
    let kind = lowered(
        match scope {
            Some(s) => s,
            None => "global"@,
        },
    );
    if kind == "global"@ {
        Ok(ScopeView { global: true, workdir: None })
    } else if kind == "local"@ {
        match located(
            match directory {
                Some(d) => d,
                None => Seq::empty(),
            },
            home,
        ) {
            Ok(path) => if is_directory {
                Ok(ScopeView { global: false, workdir: Some(path) })
            } else {
                Err(ScopeErrorView::NotADirectory)
            },
            Err(e) => Err(e),
        }
    } else {
        Err(ScopeErrorView::UnsupportedScope { scope: kind })
    }
}

/// The scope that the desktop front end asks for. `is_directory` says
/// whether the directory that `locate` names exists; it is not read where
/// no directory is asked for.
pub fn desktop_scope(
    scope: Option<&str>,
    directory: Option<&str>,
    home: Option<&str>,
    is_directory: bool,
) -> (r: Result<ScopeConfig, ScopeError>)
    ensures
        outcome_view(r) == desktop_requested(
            str_view(scope),
            str_view(directory),
            str_view(home),
            is_directory,
        ),
{
    let kind = chars_of(
        lowercase(
            match scope {
                Some(s) => s,
                None => "global",
            },
        ).as_str(),
    );
    if same_chars(&kind, &chars_of("global")) {
        Ok(ScopeConfig { global: true, workdir: None })
    } else if same_chars(&kind, &chars_of("local")) {
        let dir = match directory {
            Some(d) => d,
            None => "",
        };
        proof {
            reveal_strlit("");
            assert(""@ =~= Seq::<char>::empty());
        }
        match locate(dir, home) {
            Ok(path) => if is_directory {
                Ok(ScopeConfig { global: false, workdir: Some(path) })
            } else {
                Err(ScopeError::NotADirectory)
            },
            Err(e) => Err(e),
        }
    } else {
        Err(ScopeError::UnsupportedScope { scope: string_of(&kind) })
    }
}

impl ScopeError {
    /// The text that the desktop front end shows for the refusal.
    pub open spec fn desktop_description(self) -> Seq<char> {
        match self {
            ScopeError::MissingDirectory => "缺少目录参数"@,
            ScopeError::UnsupportedScope { scope } => "不支持的检测范围"@,
            _ => self.description(),
        }
    }

    /// The text that the desktop front end shows for the refusal.
    pub fn desktop_message(&self) -> (r: String)
        ensures
            r@ == self.desktop_description(),
    {
        match self {
            ScopeError::MissingDirectory => copy_str("缺少目录参数"),
            ScopeError::UnsupportedScope { scope: _ } => copy_str("不支持的检测范围"),
            _ => self.message(),
        }
    }
}

/// Whether a link can be opened: it is not blank.
pub fn is_openable(url: &str) -> (r: bool)
    ensures
        r == (trim(url@).len() > 0),
{
    trimmed(&chars_of(url)).len() > 0
}

} // verus!
