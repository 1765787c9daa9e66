//! The search path for the managers' programs: what the environment
//! gives, what the login shell adds, and the usual places.

use vstd::prelude::*;
use crate::adapter::str_view;
use crate::cache::{join_path, path_join};
use crate::text::{
    chars_of, copy_str, copy_strings, join, join_strings, same_chars, seqs_of, split, split_on,
    string_of, trim, trimmed, views_of,
};

verus! {

/// The entries among the first `n` of `entries` as the search path keeps
/// them: without white space around them, no blank one, and each one once,
/// where it comes first.
pub open spec fn merged(entries: Seq<Seq<char>>, n: int) -> Seq<Seq<char>>
    decreases n,
{
    if n <= 0 {
        Seq::empty()
    } else {
        let before = merged(entries, n - 1);
        let entry = trim(entries[n - 1]);
        if entry.len() == 0 || before.contains(entry) {
            before
        } else {
            before.push(entry)
        }
    }
}

fn holds(list: &Vec<Vec<char>>, entry: &Vec<char>) -> (r: bool)
    ensures
        r == seqs_of(list@).contains(entry@),
{
    let mut i: usize = 0;
    while i < list.len()
        invariant
            i <= list.len(),
            forall|k: int| 0 <= k < i ==> seqs_of(list@)[k] != entry@,
        decreases list.len() - i,
    {
        assert(seqs_of(list@)[i as int] == list@[i as int]@);
        if same_chars(&list[i], entry) {
            return true;
        }
        i = i + 1;
    }
    false
}

/// The entries as the search path keeps them.
pub fn merge_entries(entries: &Vec<String>) -> (r: Vec<String>)
    ensures
        views_of(r@) == merged(views_of(entries@), entries.len() as int),
{
    let mut kept: Vec<Vec<char>> = Vec::new();
    let mut i: usize = 0;
    assert(seqs_of(kept@) =~= merged(views_of(entries@), 0));
    while i < entries.len()
        invariant
            i <= entries.len(),
            seqs_of(kept@) == merged(views_of(entries@), i as int),
        decreases entries.len() - i,
    {
        assert(views_of(entries@)[i as int] == entries@[i as int]@);
        let entry = trimmed(&chars_of(entries[i].as_str()));
        if entry.len() > 0 && !holds(&kept, &entry) {
            let ghost before = seqs_of(kept@);
            kept.push(entry);
            assert(seqs_of(kept@) =~= before.push(entry@));
        }
        i = i + 1;
    }
    let mut out: Vec<String> = Vec::new();
    let mut k: usize = 0;
    while k < kept.len()
        invariant
            k <= kept.len(),
            out.len() == k,
            forall|j: int| 0 <= j < k ==> out@[j]@ == kept@[j]@,
        decreases kept.len() - k,
    {
        out.push(string_of(&kept[k]));
        k = k + 1;
    }
    assert(views_of(out@) =~= seqs_of(kept@));
    out
}

/// The search path holds no entry twice and no blank entry, and every
/// entry stands without white space around it.
pub proof fn law_merged_entries(entries: Seq<Seq<char>>, n: int)
    requires
        0 <= n <= entries.len(),
    ensures
        forall|i: int, j: int|
            0 <= i < j < merged(entries, n).len() ==> merged(entries, n)[i] != merged(
                entries,
                n,
            )[j],
        forall|i: int|
            0 <= i < merged(entries, n).len() ==> (#[trigger] merged(entries, n)[i]).len() > 0,
        forall|i: int|
            0 <= i < merged(entries, n).len() ==> exists|k: int|
                0 <= k < n && #[trigger] merged(entries, n)[i] == trim(entries[k]),
        forall|k: int|
            0 <= k < n && trim(entries[k]).len() > 0 ==> merged(entries, n).contains(
                #[trigger] trim(entries[k]),
            ),
    decreases n,
{
    if n > 0 {
        law_merged_entries(entries, n - 1);
        let before = merged(entries, n - 1);
        let now = merged(entries, n);
        let entry = trim(entries[n - 1]);
        assert forall|i: int| 0 <= i < now.len() implies exists|k: int|
            0 <= k < n && #[trigger] now[i] == trim(entries[k]) by {
            if i < before.len() {
                let k = choose|k: int| 0 <= k < n - 1 && before[i] == trim(entries[k]);
                assert(now[i] == trim(entries[k]));
            } else {
                assert(now[i] == trim(entries[n - 1]));
            }
        }
        assert forall|k: int| 0 <= k < n && trim(entries[k]).len() > 0 implies now.contains(
            #[trigger] trim(entries[k]),
        ) by {
            if k < n - 1 {
                let at = choose|at: int| 0 <= at < before.len() && before[at] == trim(entries[k]);
                assert(now[at] == trim(entries[k]));
            } else if before.contains(entry) {
            } else {
                assert(now[now.len() - 1] == entry);
            }
        }
    }
}

/// The entries of a search path: the pieces between its colons.
pub fn split_path(value: &str) -> (r: Vec<String>)
    ensures
        views_of(r@) == split(value@, ':'),
{
    let pieces = split_on(&chars_of(value), ':');
    let mut out: Vec<String> = Vec::new();
    let mut i: usize = 0;
    while i < pieces.len()
        invariant
            i <= pieces.len(),
            out.len() == i,
            forall|k: int| 0 <= k < i ==> out@[k]@ == pieces@[k]@,
        decreases pieces.len() - i,
    {
        out.push(string_of(&pieces[i]));
        i = i + 1;
    }
    assert(views_of(out@) =~= seqs_of(pieces@));
    out
}

/// The places below the home directory where managers put programs.
pub open spec fn home_places() -> Seq<Seq<char>> {
    seq![
        ".cargo/bin"@,
        ".local/bin"@,
        ".pyenv/shims"@,
        ".pyenv/bin"@,
        ".volta/bin"@,
        ".npm-global/bin"@,
        "Library/pnpm"@,
    ]
}

/// The usual places of programs on the system.
pub open spec fn system_places() -> Seq<Seq<char>> {
    seq![
        "/opt/homebrew/bin"@,
        "/opt/homebrew/sbin"@,
        "/usr/local/bin"@,
        "/usr/local/sbin"@,
        "/usr/bin"@,
        "/bin"@,
        "/usr/sbin"@,
        "/sbin"@,
    ]
}

/// The places below `home` where managers put programs.
pub fn home_candidates(home: &str) -> (r: Vec<String>)
    ensures
        views_of(r@) == home_places().map_values(|place: Seq<char>| path_join(home@, place)),
{
    let mut r: Vec<String> = Vec::new();
    r.push(join_path(home, ".cargo/bin"));
    r.push(join_path(home, ".local/bin"));
    r.push(join_path(home, ".pyenv/shims"));
    r.push(join_path(home, ".pyenv/bin"));
    r.push(join_path(home, ".volta/bin"));
    r.push(join_path(home, ".npm-global/bin"));
    r.push(join_path(home, "Library/pnpm"));
    assert(views_of(r@) =~= home_places().map_values(|place: Seq<char>| path_join(home@, place)));
    r
}

/// The usual places of programs on the system.
pub fn system_paths() -> (r: Vec<String>)
    ensures
        views_of(r@) == system_places(),
{
    let mut r: Vec<String> = Vec::new();
    r.push(copy_str("/opt/homebrew/bin"));
    r.push(copy_str("/opt/homebrew/sbin"));
    r.push(copy_str("/usr/local/bin"));
    r.push(copy_str("/usr/local/sbin"));
    r.push(copy_str("/usr/bin"));
    r.push(copy_str("/bin"));
    r.push(copy_str("/usr/sbin"));
    r.push(copy_str("/sbin"));
    assert(views_of(r@) =~= system_places());
    r
}

/// All entries that go into the search path, in their order: those of the
/// current path, those of the login shell's path, the places below the
/// home directory that exist, and the usual places.
pub open spec fn gathered(
    current: Seq<char>,
    shell: Option<Seq<char>>,
    home_dirs: Seq<Seq<char>>,
) -> Seq<Seq<char>> {
    split(current, ':') + (match shell {
        Some(path) => split(path, ':'),
        None => Seq::empty(),
    }) + home_dirs + system_places()
}

/// The search path to set: the gathered entries, each once, with colons
/// between them. Nothing where no entry is left.
pub fn search_path(current: &str, shell: Option<&str>, home_dirs: &Vec<String>) -> (r: Option<
    String,
>)
    ensures
        ({
            let all = gathered(current@, str_view(shell), views_of(home_dirs@));
            let kept = merged(all, all.len() as int);
            match r {
                Some(path) => kept.len() > 0 && path@ == join(kept, ":"@),
                None => kept.len() == 0,
            }
        }),
{
    let mut all = split_path(current);
    let ghost first = views_of(all@);
    match shell {
        Some(path) => {
            let mut more = split_path(path);
            let ghost added = views_of(more@);
            all.append(&mut more);
            assert(views_of(all@) =~= first + added);
        },
        None => {
            assert(views_of(all@) =~= first + Seq::<Seq<char>>::empty());
        },
    }
    let ghost second = views_of(all@);
    let mut dirs = copy_strings(home_dirs);
    all.append(&mut dirs);
    assert(views_of(all@) =~= second + views_of(home_dirs@));
    let ghost third = views_of(all@);
    let mut usual = system_paths();
    all.append(&mut usual);
    assert(views_of(all@) =~= third + system_places());
    let kept = merge_entries(&all);
    if kept.len() == 0 {
        None
    } else {
        Some(join_strings(&kept, ":"))
    }
}

/// The search path that the login shell printed: its output without
/// white space around it. A shell that failed or printed nothing gives
/// none.
pub fn shell_path(success: bool, output: &str) -> (r: Result<String, String>)
    ensures
        match r {
            Ok(path) => success && path@ == trim(output@) && path@.len() > 0,
            Err(e) => if !success {
                e@ == "读取 shell PATH 失败"@
            } else {
                trim(output@).len() == 0 && e@ == "shell PATH 为空"@
            },
        },
{
    if !success {
        return Err(copy_str("读取 shell PATH 失败"));
    }
    let value = trimmed(&chars_of(output));
    if value.len() == 0 {
        Err(copy_str("shell PATH 为空"))
    } else {
        Ok(string_of(&value))
    }
}

} // verus!
