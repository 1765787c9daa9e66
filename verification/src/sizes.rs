//! The sizes of installed packages, as `du -sk` reports them for the
//! directories below the root of an installation.

use vstd::prelude::*;
use crate::adapter::str_view;
use crate::cache::{join_path, path_join};
use crate::package::{package_views, Package, PackageView};
use crate::text::{
    chars_of, copy_range, lines, matches_at, occurs_at, same_chars, same_text, seqs_of, split_lines,
    split_words, trim, trimmed, words,
};

verus! {

/// How many directories one run of `du` is asked for.
pub const DU_CHUNK: usize = 100;

/// Up to how many packages the sizes are asked for.
pub const MAX_SIZE_PACKAGES: usize = 1000;

/// The value of a decimal digit.
pub open spec fn digit_value(c: char) -> Option<nat> {
    if '0' <= c <= '9' {
        Some((c as u32 - '0' as u32) as nat)
    } else {
        None
    }
}

/// The value of a text of decimal digits; 0 for the empty text, nothing
/// where a character is no digit.
pub open spec fn digits_value(s: Seq<char>) -> Option<nat>
    decreases s.len(),
{
    if s.len() == 0 {
        Some(0)
    } else {
        match (digits_value(s.drop_last()), digit_value(s.last())) {
            (Some(v), Some(d)) => Some(v * 10 + d),
            _ => None,
        }
    }
}

/// The number that a text names: decimal digits, at least one, with an
/// optional `+` before them, and a value that fits 64 bits.
pub open spec fn number(s: Seq<char>) -> Option<u64> {
    let body = if s.len() > 0 && s[0] == '+' {
        s.skip(1)
    } else {
        s
    };
    if body.len() == 0 {
        None
    } else {
        match digits_value(body) {
            Some(v) if v <= u64::MAX => Some(v as u64),
            _ => None,
        }
    }
}

/// The value of a longer text of digits is no smaller than that of its
/// beginning, and a text has no value where its beginning has none.
pub proof fn lemma_digits_grow(s: Seq<char>, n: int)
    requires
        0 <= n <= s.len(),
    ensures
        digits_value(s.take(n)) is None ==> digits_value(s) is None,
        digits_value(s) matches Some(v) ==> digits_value(s.take(n)) matches Some(w) && w <= v,
    decreases s.len() - n,
{
    if n == s.len() {
        assert(s.take(n) == s);
    } else {
        lemma_digits_grow(s, n + 1);
        assert(s.take(n + 1).drop_last() == s.take(n));
    }
}

/// The number that a text names.
pub fn parse_number(v: &Vec<char>) -> (r: Option<u64>)
    ensures
        r == number(v@),
{
    let start: usize = if v.len() > 0 && v[0] == '+' {
        1
    } else {
        0
    };
    if start == v.len() {
        return None;
    }
    let ghost body = v@.skip(start as int);
    let mut value: u64 = 0;
    let mut i: usize = start;
    assert(body.take(0) =~= Seq::<char>::empty());
    assert(v@.skip(0) == v@);
    while i < v.len()
        invariant
            start <= i <= v.len(),
            start < v.len(),
            body == v@.skip(start as int),
            number(v@) == match digits_value(body) {
                Some(x) if x <= u64::MAX => Some(x as u64),
                _ => None,
            },
            digits_value(body.take(i - start)) == Some(value as nat),
        decreases v.len() - i,
    {
        let c = v[i];
        proof {
            assert(body.take(i - start + 1).drop_last() == body.take(i - start));
            assert(body.take(i - start + 1).last() == c);
            lemma_digits_grow(body, i - start + 1);
        }
        if !('0' <= c && c <= '9') {
            return None;
        }
        let d: u64 = (c as u32 - '0' as u32) as u64;
        if value > (u64::MAX - d) / 10 {
            assert(value * 10 + d > u64::MAX);
            return None;
        }
        value = value * 10 + d;
        i = i + 1;
    }
    assert(body.take(v.len() - start) == body);
    Some(value)
}

/// The index of the first occurrence of `p` in `s` from `from` on; the
/// length of `s` where there is none.
pub open spec fn first_at(s: Seq<char>, p: Seq<char>, from: int) -> int
    decreases s.len() - from,
{
    if from >= s.len() {
        s.len() as int
    } else if occurs_at(s, p, from) {
        from
    } else {
        first_at(s, p, from + 1)
    }
}

/// The index of the first occurrence of `p` in `v`.
pub fn first_index(v: &Vec<char>, p: &Vec<char>) -> (r: usize)
    ensures
        r == first_at(v@, p@, 0),
        r <= v.len(),
{
    let mut i: usize = 0;
    while i < v.len()
        invariant
            i <= v.len(),
            first_at(v@, p@, 0) == first_at(v@, p@, i as int),
        decreases v.len() - i,
    {
        if matches_at(v, p, i) {
            return i;
        }
        i = i + 1;
    }
    i
}

/// The size in bytes for a size in kilobytes; the largest number where the
/// size does not fit.
pub open spec fn kilobytes(kb: u64) -> u64 {
    if kb * 1024 > u64::MAX {
        u64::MAX
    } else {
        (kb * 1024) as u64
    }
}

/// The size in bytes for a size in kilobytes.
pub fn bytes_of(kb: u64) -> (r: u64)
    ensures
        r == kilobytes(kb),
{
    if kb > u64::MAX / 1024 {
        u64::MAX
    } else {
        kb * 1024
    }
}

/// What a line of `du -sk` says: a size in kilobytes and a path. The path
/// is the line from the first occurrence of its second word on.
pub open spec fn du_line(line: Seq<char>) -> Option<(u64, Seq<char>)> {
    let t = trim(line);
    let parts = words(t);
    if parts.len() < 2 {
        None
    } else {
        match number(parts[0]) {
            Some(kb) => Some((kb, trim(t.skip(first_at(t, parts[1], 0))))),
            None => None,
        }
    }
}

/// What a line of `du -sk` says.
pub fn read_du_line(line: &Vec<char>) -> (r: Option<(u64, Vec<char>)>)
    ensures
        match du_line(line@) {
            Some((kb, path)) => r matches Some((k, p)) && k == kb && p@ == path,
            None => r is None,
        },
{
    let t = trimmed(line);
    let parts = split_words(&t);
    if parts.len() < 2 {
        return None;
    }
    match parse_number(&parts[0]) {
        Some(kb) => {
            let at = first_index(&t, &parts[1]);
            let rest = copy_range(&t, at, t.len());
            assert(t@.subrange(at as int, t@.len() as int) == t@.skip(at as int));
            Some((kb, trimmed(&rest)))
        },
        None => None,
    }
}

/// A directory whose size is asked for, and the package it belongs to.
#[derive(Debug, Clone)]
pub struct Candidate {
    pub name: String,
    pub path: String,
}

/// The name of the last of the first `n` candidates with the path `path`.
pub open spec fn owner_of(candidates: Seq<Candidate>, path: Seq<char>, n: int) -> Option<
    Seq<char>,
>
    decreases n,
{
    if n <= 0 {
        None
    } else if candidates[n - 1].path@ == path {
        Some(candidates[n - 1].name@)
    } else {
        owner_of(candidates, path, n - 1)
    }
}

/// The sizes in bytes that the first `n` of `rows` give for the packages
/// of `candidates`, in the order of the rows.
pub open spec fn sizes_among(rows: Seq<Seq<char>>, candidates: Seq<Candidate>, n: int) -> Seq<
    (Seq<char>, u64),
>
    decreases n,
{
    if n <= 0 {
        Seq::empty()
    } else {
        let before = sizes_among(rows, candidates, n - 1);
        match du_line(rows[n - 1]) {
            Some((kb, path)) => match owner_of(candidates, path, candidates.len() as int) {
                Some(name) => before.push((name, kilobytes(kb))),
                None => before,
            },
            None => before,
        }
    }
}

/// The views of a list of sizes.
pub open spec fn size_views(s: Seq<(String, u64)>) -> Seq<(Seq<char>, u64)> {
    s.map_values(|e: (String, u64)| (e.0@, e.1))
}

/// The directories below `root` that may hold the packages `names`.
pub fn candidates_for(root: &str, names: &Vec<String>) -> (r: Vec<Candidate>)
    ensures
        r.len() == names.len(),
        forall|i: int|
            0 <= i < names.len() ==> (#[trigger] r@[i]).name@ == names@[i]@ && r@[i].path@
                == path_join(root@, names@[i]@),
{
    let mut out: Vec<Candidate> = Vec::new();
    let mut i: usize = 0;
    while i < names.len()
        invariant
            i <= names.len(),
            out.len() == i,
            forall|k: int|
                0 <= k < i ==> (#[trigger] out@[k]).name@ == names@[k]@ && out@[k].path@
                    == path_join(root@, names@[k]@),
        decreases names.len() - i,
    {
        out.push(
            Candidate { name: names[i].clone(), path: join_path(root, names[i].as_str()) },
        );
        i = i + 1;
    }
    out
}

fn find_owner<'a>(candidates: &'a Vec<Candidate>, path: &Vec<char>) -> (r: Option<&'a String>)
    ensures
        match owner_of(candidates@, path@, candidates.len() as int) {
            Some(name) => r matches Some(s) && s@ == name,
            None => r is None,
        },
{
    let mut n: usize = candidates.len();
    while n > 0
        invariant
            n <= candidates.len(),
            owner_of(candidates@, path@, candidates.len() as int) == owner_of(
                candidates@,
                path@,
                n as int,
            ),
        decreases n,
    {
        let p = chars_of(candidates[n - 1].path.as_str());
        if same_chars(&p, path) {
            return Some(&candidates[n - 1].name);
        }
        n = n - 1;
    }
    None
}

/// The sizes in bytes that the output of `du -sk` gives for the packages
/// of `candidates`.
pub fn read_sizes(output: &str, candidates: &Vec<Candidate>) -> (r: Vec<(String, u64)>)
    ensures
        size_views(r@) == sizes_among(lines(output@), candidates@, lines(output@).len() as int),
{
    let all = split_lines(&chars_of(output));
    let ghost rows = lines(output@);
    let mut out: Vec<(String, u64)> = Vec::new();
    let mut i: usize = 0;
    assert(size_views(out@) =~= sizes_among(rows, candidates@, 0));
    while i < all.len()
        invariant
            i <= all.len(),
            seqs_of(all@) == rows,
            size_views(out@) == sizes_among(rows, candidates@, i as int),
        decreases all.len() - i,
    {
        assert(rows[i as int] == all@[i as int]@);
        match read_du_line(&all[i]) {
            Some((kb, path)) => match find_owner(candidates, &path) {
                Some(name) => {
                    let ghost before = size_views(out@);
                    let entry = (name.clone(), bytes_of(kb));
                    out.push(entry);
                    assert(size_views(out@) =~= before.push((entry.0@, entry.1)));
                },
                None => {},
            },
            None => {},
        }
        i = i + 1;
    }
    out
}

/// The size that the last of the first `n` of `sizes` gives for `name`.
pub open spec fn size_for(sizes: Seq<(Seq<char>, u64)>, name: Seq<char>, n: int) -> Option<u64>
    decreases n,
{
    if n <= 0 {
        None
    } else if sizes[n - 1].0 == name {
        Some(sizes[n - 1].1)
    } else {
        size_for(sizes, name, n - 1)
    }
}

/// A package with its size where `sizes` gives one, and then with its
/// directory below `root` where a root is given.
pub open spec fn with_size(p: PackageView, sizes: Seq<(Seq<char>, u64)>, root: Option<Seq<char>>)
    -> PackageView {
    match size_for(sizes, p.name, sizes.len() as int) {
        Some(size) => PackageView {
            size: Some(size),
            installed_path: match root {
                Some(dir) => Some(path_join(dir, p.name)),
                None => p.installed_path,
            },
            ..p
        },
        None => p,
    }
}

/// The packages with their sizes.
pub open spec fn sized(
    packages: Seq<PackageView>,
    sizes: Seq<(Seq<char>, u64)>,
    root: Option<Seq<char>>,
) -> Seq<PackageView> {
    Seq::new(packages.len(), |i: int| with_size(packages[i], sizes, root))
}

fn find_size(sizes: &Vec<(String, u64)>, name: &str) -> (r: Option<u64>)
    ensures
        r == size_for(size_views(sizes@), name@, sizes.len() as int),
{
    let mut n: usize = sizes.len();
    while n > 0
        invariant
            n <= sizes.len(),
            size_for(size_views(sizes@), name@, sizes.len() as int) == size_for(
                size_views(sizes@),
                name@,
                n as int,
            ),
        decreases n,
    {
        assert(size_views(sizes@)[n - 1] == (sizes@[n - 1].0@, sizes@[n - 1].1));
        if same_text(sizes[n - 1].0.as_str(), name) {
            return Some(sizes[n - 1].1);
        }
        n = n - 1;
    }
    None
}

/// Notes the size of every package that `sizes` names, and its directory
/// below `root` where a root is given.
pub fn apply_sizes(packages: &Vec<Package>, sizes: &Vec<(String, u64)>, root: Option<&str>) -> (r:
    Vec<Package>)
    ensures
        package_views(r@) == sized(
            package_views(packages@),
            size_views(sizes@),
            str_view(root),
        ),
{
    let mut out: Vec<Package> = Vec::new();
    let mut i: usize = 0;
    while i < packages.len()
        invariant
            i <= packages.len(),
            out.len() == i,
            forall|k: int|
                0 <= k < i ==> out@[k]@ == with_size(
                    packages@[k]@,
                    size_views(sizes@),
                    str_view(root),
                ),
        decreases packages.len() - i,
    {
        let mut p = packages[i].copy();
        match find_size(sizes, p.name.as_str()) {
            Some(size) => {
                p.size = Some(size);
                match root {
                    Some(dir) => {
                        p.installed_path = Some(join_path(dir, p.name.as_str()));
                    },
                    None => {},
                }
            },
            None => {},
        }
        out.push(p);
        i = i + 1;
    }
    assert(package_views(out@) =~= sized(
        package_views(packages@),
        size_views(sizes@),
        str_view(root),
    ));
    out
}

/// The number of runs of `du` for `n` directories.
pub open spec fn chunk_count(n: nat) -> nat {
    (n + DU_CHUNK - 1) as nat / (DU_CHUNK as nat)
}

/// The directories of the run `index`: from `index * 100` up to 100 more,
/// as far as there are any.
pub fn chunk_bounds(n: usize, index: usize) -> (r: (usize, usize))
    requires
        index * DU_CHUNK < n,
    ensures
        r.0 == index * DU_CHUNK,
        r.1 == if r.0 + DU_CHUNK < n {
            r.0 + DU_CHUNK
        } else {
            n as int
        },
        r.0 < r.1 <= n,
{
    let from = index * DU_CHUNK;
    let to = if n - from > DU_CHUNK {
        from + DU_CHUNK
    } else {
        n
    };
    (from, to)
}

} // verus!
