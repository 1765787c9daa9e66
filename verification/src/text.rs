//! Character-level text utilities shared by the adapters.
//!
//! Text is handled as sequences of `char`. Every function here is stated
//! against a spec function over `Seq<char>`.

use vstd::prelude::*;

verus! {

/// Taken on trust of the standard library: `String::push` appends the
/// character to the text.
pub assume_specification[ String::push ](s: &mut String, c: char)
    ensures
        final(s)@ == old(s)@.push(c),
;

/// The views of a sequence of strings.
pub open spec fn views_of(s: Seq<String>) -> Seq<Seq<char>> {
    s.map_values(|x: String| x@)
}

/// The views of a sequence of character vectors.
pub open spec fn seqs_of(s: Seq<Vec<char>>) -> Seq<Seq<char>> {
    s.map_values(|x: Vec<char>| x@)
}

/// The view of an optional string.
pub open spec fn opt_view(o: Option<String>) -> Option<Seq<char>> {
    match o {
        Some(s) => Some(s@),
        None => None,
    }
}

/// The characters of `s`, in order.
pub fn chars_of(s: &str) -> (v: Vec<char>)
    ensures
        v@ == s@,
{
    let mut v: Vec<char> = Vec::new();
    for c in it: s.chars()
        invariant
            v@ == it.seq().take(it.index() as int),
            it.seq() == s@,
    {
        v.push(c);
    }
    v
}

/// The string made of the characters `v[from..to]`.
pub fn string_of_range(v: &Vec<char>, from: usize, to: usize) -> (s: String)
    requires
        from <= to <= v.len(),
    ensures
        s@ == v@.subrange(from as int, to as int),
{
    let mut s = String::new();
    let mut i: usize = from;
    while i < to
        invariant
            from <= i <= to <= v.len(),
            s@ == v@.subrange(from as int, i as int),
        decreases to - i,
    {
        s.push(v[i]);
        i = i + 1;
    }
    s
}

/// The string made of the characters of `v`.
pub fn string_of(v: &Vec<char>) -> (s: String)
    ensures
        s@ == v@,
{
    let s = string_of_range(v, 0, v.len());
    assert(v@.subrange(0, v.len() as int) == v@);
    s
}

/// A copy of `s`.
pub fn copy_str(s: &str) -> (r: String)
    ensures
        r@ == s@,
{
    s.to_owned()
}

/// A copy of an optional string.
pub fn copy_opt(o: &Option<String>) -> (r: Option<String>)
    ensures
        opt_view(r) == opt_view(*o),
{
    match o {
        Some(s) => Some(s.clone()),
        None => None,
    }
}

/// A copy of a list of strings.
pub fn copy_strings(v: &Vec<String>) -> (r: Vec<String>)
    ensures
        views_of(r@) == views_of(v@),
{
    let mut r: Vec<String> = Vec::new();
    let mut i: usize = 0;
    while i < v.len()
        invariant
            i <= v.len(),
            r.len() == i,
            forall|k: int| 0 <= k < i ==> r@[k]@ == v@[k]@,
        decreases v.len() - i,
    {
        r.push(v[i].clone());
        i = i + 1;
    }
    assert(views_of(r@) =~= views_of(v@));
    r
}

/// Whether two texts hold the same characters.
pub fn same_text(a: &str, b: &str) -> (r: bool)
    ensures
        r == (a@ == b@),
{
    let x = chars_of(a);
    let y = chars_of(b);
    same_chars(&x, &y)
}

/// Whether two optional texts hold the same.
pub fn same_opt(a: &Option<String>, b: &Option<String>) -> (r: bool)
    ensures
        r == (opt_view(*a) == opt_view(*b)),
{
    match (a, b) {
        (Some(x), Some(y)) => same_text(x.as_str(), y.as_str()),
        (None, None) => true,
        _ => false,
    }
}

/// Whether two character vectors hold the same characters.
pub fn same_chars(a: &Vec<char>, b: &Vec<char>) -> (r: bool)
    ensures
        r == (a@ == b@),
{
    if a.len() != b.len() {
        return false;
    }
    let mut i: usize = 0;
    while i < a.len()
        invariant
            a.len() == b.len(),
            i <= a.len(),
            forall|k: int| 0 <= k < i ==> a@[k] == b@[k],
        decreases a.len() - i,
    {
        if a[i] != b[i] {
            return false;
        }
        i = i + 1;
    }
    assert(a@ =~= b@);
    true
}

/// `a` followed by `b`.
pub fn join2(a: &str, b: &str) -> (r: String)
    ensures
        r@ == a@ + b@,
{
    let mut v = chars_of(a);
    let mut w = chars_of(b);
    v.append(&mut w);
    string_of(&v)
}

/// `a` followed by `b` and `c`.
pub fn join3(a: &str, b: &str, c: &str) -> (r: String)
    ensures
        r@ == a@ + b@ + c@,
{
    let ab = join2(a, b);
    join2(ab.as_str(), c)
}


/// Whether `c` has the Unicode property White_Space.
pub open spec fn is_space(c: char) -> bool {
    let n = c as u32;
    (0x09 <= n <= 0x0D) || n == 0x20 || n == 0x85 || n == 0xA0 || n == 0x1680 || (0x2000 <= n
        <= 0x200A) || n == 0x2028 || n == 0x2029 || n == 0x202F || n == 0x205F || n == 0x3000
}

/// Whether `c` is white space.
pub fn is_whitespace(c: char) -> (r: bool)
    ensures
        r == is_space(c),
{
    let n: u32 = c as u32;
    (0x09 <= n && n <= 0x0D) || n == 0x20 || n == 0x85 || n == 0xA0 || n == 0x1680 || (0x2000 <= n
        && n <= 0x200A) || n == 0x2028 || n == 0x2029 || n == 0x202F || n == 0x205F || n
        == 0x3000
}

/// `s` without its leading white space.
pub open spec fn trim_start(s: Seq<char>) -> Seq<char>
    decreases s.len(),
{
    if s.len() > 0 && is_space(s[0]) {
        trim_start(s.skip(1))
    } else {
        s
    }
}

/// `s` without its trailing white space.
pub open spec fn trim_end(s: Seq<char>) -> Seq<char>
    decreases s.len(),
{
    if s.len() > 0 && is_space(s.last()) {
        trim_end(s.drop_last())
    } else {
        s
    }
}

/// `s` without leading and trailing white space.
pub open spec fn trim(s: Seq<char>) -> Seq<char> {
    trim_end(trim_start(s))
}

/// `v` without leading and trailing white space.
pub fn trimmed(v: &Vec<char>) -> (r: Vec<char>)
    ensures
        r@ == trim(v@),
{
    let mut i: usize = 0;
    assert(v@.skip(0) == v@);
    while i < v.len() && is_whitespace(v[i])
        invariant
            i <= v.len(),
            trim_start(v@) == trim_start(v@.skip(i as int)),
        decreases v.len() - i,
    {
        assert(v@.skip(i as int).skip(1) == v@.skip(i + 1));
        i = i + 1;
    }
    assert(trim_start(v@) == v@.skip(i as int));
    let mut j: usize = v.len();
    assert(v@.skip(i as int) == v@.subrange(i as int, j as int));
    while j > i && is_whitespace(v[j - 1])
        invariant
            i <= j <= v.len(),
            trim(v@) == trim_end(v@.subrange(i as int, j as int)),
        decreases j,
    {
        assert(v@.subrange(i as int, j as int).drop_last() == v@.subrange(i as int, j - 1));
        j = j - 1;
    }
    let mut r: Vec<char> = Vec::new();
    let mut k: usize = i;
    while k < j
        invariant
            i <= k <= j <= v.len(),
            r@ == v@.subrange(i as int, k as int),
        decreases j - k,
    {
        r.push(v[k]);
        k = k + 1;
    }
    r
}

/// The maximal runs of characters of `s` that are not white space, in order.
pub open spec fn words(s: Seq<char>) -> Seq<Seq<char>>
    decreases s.len(),
{
    if s.len() == 0 {
        Seq::empty()
    } else {
        let init = s.drop_last();
        let prev = words(init);
        if is_space(s.last()) {
            prev
        } else if init.len() > 0 && !is_space(init.last()) {
            prev.drop_last().push(prev.last().push(s.last()))
        } else {
            prev.push(seq![s.last()])
        }
    }
}

/// Whether `s` ends inside a word.
pub open spec fn ends_in_word(s: Seq<char>) -> bool {
    s.len() > 0 && !is_space(s.last())
}

/// The words of `v`: what `split_whitespace` yields.
pub fn split_words(v: &Vec<char>) -> (r: Vec<Vec<char>>)
    ensures
        seqs_of(r@) == words(v@),
{
    let mut out: Vec<Vec<char>> = Vec::new();
    let mut cur: Vec<char> = Vec::new();
    let mut inside = false;
    let mut i: usize = 0;
    assert(seqs_of(out@) =~= words(v@.take(0)));
    while i < v.len()
        invariant
            i <= v.len(),
            inside == ends_in_word(v@.take(i as int)),
            inside ==> words(v@.take(i as int)) == seqs_of(out@).push(cur@),
            !inside ==> words(v@.take(i as int)) == seqs_of(out@),
        decreases v.len() - i,
    {
        let c = v[i];
        proof {
            assert(v@.take(i + 1).drop_last() == v@.take(i as int));
            assert(v@.take(i + 1).last() == c);
        }
        if is_whitespace(c) {
            if inside {
                let ghost before = seqs_of(out@);
                out.push(cur);
                assert(seqs_of(out@) =~= before.push(cur@));
                cur = Vec::new();
            }
            inside = false;
        } else {
            if inside {
                let ghost before = cur@;
                cur.push(c);
                assert(seqs_of(out@).push(before).drop_last() =~= seqs_of(out@));
            } else {
                cur = Vec::new();
                cur.push(c);
                assert(cur@ =~= seq![c]);
            }
            inside = true;
        }
        i = i + 1;
    }
    assert(v@.take(v.len() as int) == v@);
    if inside {
        let ghost before = seqs_of(out@);
        out.push(cur);
        assert(seqs_of(out@) =~= before.push(cur@));
    }
    out
}

/// The pieces of `s` between occurrences of `sep`; always at least one.
pub open spec fn split(s: Seq<char>, sep: char) -> Seq<Seq<char>>
    decreases s.len(),
{
    if s.len() == 0 {
        seq![Seq::empty()]
    } else {
        let prev = split(s.drop_last(), sep);
        if s.last() == sep {
            prev.push(Seq::empty())
        } else {
            prev.drop_last().push(prev.last().push(s.last()))
        }
    }
}

/// Splitting yields at least one piece.
pub proof fn lemma_split_nonempty(s: Seq<char>, sep: char)
    ensures
        split(s, sep).len() >= 1,
    decreases s.len(),
{
    if s.len() > 0 {
        lemma_split_nonempty(s.drop_last(), sep);
    }
}

/// The pieces of `v` between occurrences of `sep`.
pub fn split_on(v: &Vec<char>, sep: char) -> (r: Vec<Vec<char>>)
    ensures
        seqs_of(r@) == split(v@, sep),
        r.len() >= 1,
{
    let mut out: Vec<Vec<char>> = Vec::new();
    let mut cur: Vec<char> = Vec::new();
    let mut i: usize = 0;
    assert(seqs_of(out@).push(cur@) =~= split(v@.take(0), sep));
    while i < v.len()
        invariant
            i <= v.len(),
            split(v@.take(i as int), sep) == seqs_of(out@).push(cur@),
        decreases v.len() - i,
    {
        let c = v[i];
        proof {
            assert(v@.take(i + 1).drop_last() == v@.take(i as int));
            assert(v@.take(i + 1).last() == c);
        }
        if c == sep {
            let ghost before = seqs_of(out@);
            out.push(cur);
            assert(seqs_of(out@) =~= before.push(cur@));
            cur = Vec::new();
        } else {
            let ghost before = cur@;
            cur.push(c);
            assert(seqs_of(out@).push(before).drop_last() =~= seqs_of(out@));
        }
        i = i + 1;
    }
    assert(v@.take(v.len() as int) == v@);
    let ghost before = seqs_of(out@);
    out.push(cur);
    assert(seqs_of(out@) =~= before.push(cur@));
    out
}

/// `s` without one trailing carriage return.
pub open spec fn strip_cr(s: Seq<char>) -> Seq<char> {
    if s.len() > 0 && s.last() == '\r' {
        s.drop_last()
    } else {
        s
    }
}

/// The lines of `s`. A line ends at a line feed; a carriage return just
/// before it belongs to the line ending. A final line ending adds no
/// empty line.
pub open spec fn lines(s: Seq<char>) -> Seq<Seq<char>> {
    let pieces = split(s, '\n');
    let body = pieces.drop_last().map_values(|p: Seq<char>| strip_cr(p));
    if pieces.last().len() == 0 {
        body
    } else {
        body.push(pieces.last())
    }
}

/// The lines of `v`.
pub fn split_lines(v: &Vec<char>) -> (r: Vec<Vec<char>>)
    ensures
        seqs_of(r@) == lines(v@),
{
    let mut pieces = split_on(v, '\n');
    let ghost all = seqs_of(pieces@);
    let last = pieces.pop().unwrap();
    assert(seqs_of(pieces@) =~= all.drop_last());
    assert(last@ == all.last());
    let mut out: Vec<Vec<char>> = Vec::new();
    let mut i: usize = 0;
    while i < pieces.len()
        invariant
            i <= pieces.len(),
            out.len() == i,
            forall|k: int| 0 <= k < i ==> out@[k]@ == strip_cr(#[trigger] pieces@[k]@),
        decreases pieces.len() - i,
    {
        let p = &pieces[i];
        let n = p.len();
        let line = if n > 0 && p[n - 1] == '\r' {
            let t = copy_range(p, 0, n - 1);
            assert(p@.subrange(0, n - 1) == p@.drop_last());
            t
        } else {
            let t = copy_range(p, 0, n);
            assert(p@.subrange(0, n as int) == p@);
            t
        };
        out.push(line);
        i = i + 1;
    }
    assert(seqs_of(out@) =~= all.drop_last().map_values(|p: Seq<char>| strip_cr(p)));
    if last.len() > 0 {
        let ghost before = seqs_of(out@);
        out.push(last);
        assert(seqs_of(out@) =~= before.push(last@));
    }
    out
}

/// The characters `v[from..to]`.
pub fn copy_range(v: &Vec<char>, from: usize, to: usize) -> (r: Vec<char>)
    requires
        from <= to <= v.len(),
    ensures
        r@ == v@.subrange(from as int, to as int),
{
    let mut r: Vec<char> = Vec::new();
    let mut k: usize = from;
    while k < to
        invariant
            from <= k <= to <= v.len(),
            r@ == v@.subrange(from as int, k as int),
        decreases to - k,
    {
        r.push(v[k]);
        k = k + 1;
    }
    r
}


/// Whether `s` starts with `p`.
pub open spec fn has_prefix(s: Seq<char>, p: Seq<char>) -> bool {
    p.len() <= s.len() && s.take(p.len() as int) == p
}

/// Whether `p` occurs in `s` at index `i`.
pub open spec fn occurs_at(s: Seq<char>, p: Seq<char>, i: int) -> bool {
    0 <= i && i + p.len() <= s.len() && s.subrange(i, i + p.len()) == p
}

/// Whether `p` occurs somewhere in `s`.
pub open spec fn has_infix(s: Seq<char>, p: Seq<char>) -> bool {
    exists|i: int| occurs_at(s, p, i)
}

/// Whether `p` occurs in `v` at index `at`.
pub fn matches_at(v: &Vec<char>, p: &Vec<char>, at: usize) -> (r: bool)
    ensures
        r == occurs_at(v@, p@, at as int),
{
    if at > v.len() || p.len() > v.len() - at {
        return false;
    }
    let mut k: usize = 0;
    while k < p.len()
        invariant
            at + p.len() <= v.len(),
            k <= p.len(),
            forall|j: int| 0 <= j < k ==> v@[at + j] == p@[j],
        decreases p.len() - k,
    {
        if v[at + k] != p[k] {
            assert(v@.subrange(at as int, at + p.len())[k as int] != p@[k as int]);
            return false;
        }
        k = k + 1;
    }
    assert(v@.subrange(at as int, at + p.len()) =~= p@);
    true
}

/// Whether `v` starts with `p`.
pub fn starts_with(v: &Vec<char>, p: &str) -> (r: bool)
    ensures
        r == has_prefix(v@, p@),
{
    let pat = chars_of(p);
    let r = matches_at(v, &pat, 0);
    assert(v@.subrange(0, pat@.len() as int) == v@.take(pat@.len() as int));
    r
}

/// The index of the first occurrence of `p` in `v`.
pub fn find(v: &Vec<char>, p: &Vec<char>) -> (r: Option<usize>)
    ensures
        match r {
            Some(i) => occurs_at(v@, p@, i as int) && forall|j: int|
                0 <= j < i ==> !occurs_at(v@, p@, j),
            None => !has_infix(v@, p@),
        },
{
    let mut i: usize = 0;
    while i < v.len()
        invariant
            i <= v.len(),
            forall|j: int| 0 <= j < i ==> !occurs_at(v@, p@, j),
        decreases v.len() - i,
    {
        if matches_at(v, p, i) {
            return Some(i);
        }
        i = i + 1;
    }
    if matches_at(v, p, i) {
        return Some(i);
    }
    None
}

/// Whether `p` occurs in `v`.
pub fn contains(v: &Vec<char>, p: &str) -> (r: bool)
    ensures
        r == has_infix(v@, p@),
{
    let pat = chars_of(p);
    match find(v, &pat) {
        Some(_) => true,
        None => false,
    }
}

/// `s` with every occurrence of `p` taken out, scanning from the left. An
/// empty `p` takes nothing out.
pub open spec fn without(s: Seq<char>, p: Seq<char>) -> Seq<char>
    decreases s.len(),
{
    if p.len() == 0 || s.len() < p.len() {
        s
    } else if has_prefix(s, p) {
        without(s.skip(p.len() as int), p)
    } else {
        seq![s[0]] + without(s.skip(1), p)
    }
}

/// `v` with every occurrence of `p` taken out.
pub fn remove_all(v: &Vec<char>, p: &str) -> (r: Vec<char>)
    ensures
        r@ == without(v@, p@),
{
    let pat = chars_of(p);
    let mut out: Vec<char> = Vec::new();
    let mut i: usize = 0;
    assert(v@.skip(0) == v@);
    if pat.len() == 0 {
        return copy_range(v, 0, v.len());
    }
    while i < v.len()
        invariant
            i <= v.len(),
            pat@ == p@,
            pat.len() > 0,
            without(v@, p@) == out@ + without(v@.skip(i as int), p@),
        decreases v.len() - i,
    {
        let ghost rest = v@.skip(i as int);
        if matches_at(v, &pat, i) {
            proof {
                assert(rest.take(pat@.len() as int) == v@.subrange(i as int, i + pat@.len()));
                assert(rest.skip(pat@.len() as int) == v@.skip(i + pat@.len()));
            }
            i = i + pat.len();
        } else {
            proof {
                assert(rest.len() >= pat@.len() ==> rest.take(pat@.len() as int) == v@.subrange(
                    i as int,
                    i + pat@.len(),
                ));
                assert(rest.skip(1) == v@.skip(i + 1));
                if rest.len() < pat@.len() {
                    lemma_without_short(rest, p@);
                    lemma_without_short(rest.skip(1), p@);
                    assert(seq![rest[0]] + rest.skip(1) =~= rest);
                }
            }
            let ghost before = out@;
            out.push(v[i]);
            assert(before + (seq![rest[0]] + without(rest.skip(1), p@)) =~= out@ + without(
                rest.skip(1),
                p@,
            ));
            i = i + 1;
        }
    }
    assert(out@ + without(v@.skip(i as int), p@) =~= out@);
    out
}

/// Nothing is taken out of a text shorter than the pattern.
pub proof fn lemma_without_short(s: Seq<char>, p: Seq<char>)
    requires
        s.len() < p.len(),
    ensures
        without(s, p) == s,
{
}

/// `s` without its leading characters that are in `set`.
pub open spec fn strip_start(s: Seq<char>, set: Seq<char>) -> Seq<char>
    decreases s.len(),
{
    if s.len() > 0 && set.contains(s[0]) {
        strip_start(s.skip(1), set)
    } else {
        s
    }
}

/// `s` without its trailing characters that are in `set`.
pub open spec fn strip_end(s: Seq<char>, set: Seq<char>) -> Seq<char>
    decreases s.len(),
{
    if s.len() > 0 && set.contains(s.last()) {
        strip_end(s.drop_last(), set)
    } else {
        s
    }
}

/// `s` without leading and trailing characters that are in `set`.
pub open spec fn strip(s: Seq<char>, set: Seq<char>) -> Seq<char> {
    strip_end(strip_start(s, set), set)
}

/// Whether `c` is one of the characters of `set`.
pub fn in_set(set: &Vec<char>, c: char) -> (r: bool)
    ensures
        r == set@.contains(c),
{
    let mut k: usize = 0;
    while k < set.len()
        invariant
            k <= set.len(),
            forall|j: int| 0 <= j < k ==> set@[j] != c,
        decreases set.len() - k,
    {
        if set[k] == c {
            return true;
        }
        k = k + 1;
    }
    false
}

/// `v` without leading characters that are in `set`.
pub fn strip_leading(v: &Vec<char>, set: &str) -> (r: Vec<char>)
    ensures
        r@ == strip_start(v@, set@),
{
    let chars = chars_of(set);
    let mut i: usize = 0;
    assert(v@.skip(0) == v@);
    while i < v.len() && in_set(&chars, v[i])
        invariant
            i <= v.len(),
            chars@ == set@,
            strip_start(v@, set@) == strip_start(v@.skip(i as int), set@),
        decreases v.len() - i,
    {
        assert(v@.skip(i as int).skip(1) == v@.skip(i + 1));
        i = i + 1;
    }
    let r = copy_range(v, i, v.len());
    assert(v@.skip(i as int) == v@.subrange(i as int, v.len() as int));
    r
}

/// `v` without trailing characters that are in `set`.
pub fn strip_trailing(v: &Vec<char>, set: &str) -> (r: Vec<char>)
    ensures
        r@ == strip_end(v@, set@),
{
    let chars = chars_of(set);
    let mut j: usize = v.len();
    assert(v@.take(v.len() as int) == v@);
    while j > 0 && in_set(&chars, v[j - 1])
        invariant
            j <= v.len(),
            chars@ == set@,
            strip_end(v@, set@) == strip_end(v@.take(j as int), set@),
        decreases j,
    {
        assert(v@.take(j as int).drop_last() == v@.take(j - 1));
        j = j - 1;
    }
    let r = copy_range(v, 0, j);
    assert(v@.take(j as int) == v@.subrange(0, j as int));
    r
}

/// `v` without leading and trailing characters that are in `set`: what
/// `trim_matches` yields for a set of characters.
pub fn strip_both(v: &Vec<char>, set: &str) -> (r: Vec<char>)
    ensures
        r@ == strip(v@, set@),
{
    let a = strip_leading(v, set);
    strip_trailing(&a, set)
}

/// The decimal digit for `d`.
pub open spec fn digit(d: nat) -> char {
    if d == 0 {
        '0'
    } else if d == 1 {
        '1'
    } else if d == 2 {
        '2'
    } else if d == 3 {
        '3'
    } else if d == 4 {
        '4'
    } else if d == 5 {
        '5'
    } else if d == 6 {
        '6'
    } else if d == 7 {
        '7'
    } else if d == 8 {
        '8'
    } else {
        '9'
    }
}

/// The decimal numeral of `n`, without leading zeros.
pub open spec fn decimal(n: nat) -> Seq<char>
    decreases n,
{
    if n < 10 {
        seq![digit(n)]
    } else {
        decimal(n / 10).push(digit(n % 10))
    }
}

/// The decimal numeral of an integer, with a minus sign below zero.
pub open spec fn signed_decimal(n: int) -> Seq<char> {
    if n < 0 {
        seq!['-'] + decimal((-n) as nat)
    } else {
        decimal(n as nat)
    }
}

fn digit_char(d: u64) -> (c: char)
    requires
        d < 10,
    ensures
        c == digit(d as nat),
{
    if d == 0 {
        '0'
    } else if d == 1 {
        '1'
    } else if d == 2 {
        '2'
    } else if d == 3 {
        '3'
    } else if d == 4 {
        '4'
    } else if d == 5 {
        '5'
    } else if d == 6 {
        '6'
    } else if d == 7 {
        '7'
    } else if d == 8 {
        '8'
    } else {
        '9'
    }
}

/// Appends the decimal numeral of `n` to `out`.
pub fn push_decimal(out: &mut Vec<char>, n: u64)
    ensures
        final(out)@ == old(out)@ + decimal(n as nat),
    decreases n,
{
    if n >= 10 {
        push_decimal(out, n / 10);
    }
    out.push(digit_char(n % 10));
    assert(final(out)@ =~= old(out)@ + decimal(n as nat));
}

/// The decimal numeral of `n`.
pub fn decimal_of(n: u64) -> (r: String)
    ensures
        r@ == decimal(n as nat),
{
    let mut out: Vec<char> = Vec::new();
    push_decimal(&mut out, n);
    assert(Seq::<char>::empty() + decimal(n as nat) =~= decimal(n as nat));
    string_of(&out)
}

/// The decimal numeral of `n`, with a minus sign below zero.
pub fn signed_decimal_of(n: i64) -> (r: String)
    ensures
        r@ == signed_decimal(n as int),
{
    let mut out: Vec<char> = Vec::new();
    if n < 0 {
        out.push('-');
        let m: u64 = if n == i64::MIN {
            0x8000_0000_0000_0000u64
        } else {
            (-n) as u64
        };
        push_decimal(&mut out, m);
        assert(out@ =~= seq!['-'] + decimal((-n) as nat));
    } else {
        push_decimal(&mut out, n as u64);
        assert(out@ =~= decimal(n as nat));
    }
    string_of(&out)
}


/// Appends the characters of `s` to `out`.
pub fn push_str(out: &mut Vec<char>, s: &str)
    ensures
        final(out)@ == old(out)@ + s@,
{
    let mut w = chars_of(s);
    out.append(&mut w);
}


/// The lines of `s` after the first `n`; none where there are no more than `n`.
pub open spec fn lines_after(s: Seq<char>, n: int) -> Seq<Seq<char>> {
    if n <= lines(s).len() {
        lines(s).skip(n)
    } else {
        Seq::empty()
    }
}


/// The lowercase form of a text as `str::to_lowercase` gives it.
pub uninterp spec fn lowered(s: Seq<char>) -> Seq<char>;

/// The lowercase form of `s`, from `str::to_lowercase`. The result is a
/// function of the text alone: the Unicode lowercase mapping.
#[verifier::external_body]
pub(crate) fn lowercase(s: &str) -> (r: String)
    ensures
        r@ == lowered(s@),
{
    s.to_lowercase()
}


/// The first `n` of `parts` in one text, with `sep` between them.
pub open spec fn joined(parts: Seq<Seq<char>>, sep: Seq<char>, n: int) -> Seq<char>
    decreases n,
{
    if n <= 0 {
        Seq::empty()
    } else if n == 1 {
        parts[0]
    } else {
        joined(parts, sep, n - 1) + sep + parts[n - 1]
    }
}

/// `parts` in one text, with `sep` between them.
pub open spec fn join(parts: Seq<Seq<char>>, sep: Seq<char>) -> Seq<char> {
    joined(parts, sep, parts.len() as int)
}

/// `parts` in one text, with `sep` between them.
pub fn join_chars(parts: &Vec<Vec<char>>, sep: &str) -> (r: Vec<char>)
    ensures
        r@ == join(seqs_of(parts@), sep@),
{
    let mut out: Vec<char> = Vec::new();
    let mut i: usize = 0;
    while i < parts.len()
        invariant
            i <= parts.len(),
            out@ == joined(seqs_of(parts@), sep@, i as int),
        decreases parts.len() - i,
    {
        if i > 0 {
            push_str(&mut out, sep);
        }
        let ghost before = out@;
        let mut piece = copy_range(&parts[i], 0, parts[i].len());
        assert(piece@ == parts@[i as int]@) by {
            assert(parts@[i as int]@.subrange(0, parts@[i as int]@.len() as int)
                == parts@[i as int]@);
        }
        out.append(&mut piece);
        assert(out@ == before + seqs_of(parts@)[i as int]);
        assert(i == 0 ==> out@ =~= seqs_of(parts@)[0]);
        i = i + 1;
    }
    out
}

/// `parts` in one text, with `sep` between them.
pub fn join_strings(parts: &Vec<String>, sep: &str) -> (r: String)
    ensures
        r@ == join(views_of(parts@), sep@),
{
    let mut chars: Vec<Vec<char>> = Vec::new();
    let mut i: usize = 0;
    while i < parts.len()
        invariant
            i <= parts.len(),
            chars.len() == i,
            forall|k: int| 0 <= k < i ==> chars@[k]@ == parts@[k]@,
        decreases parts.len() - i,
    {
        chars.push(chars_of(parts[i].as_str()));
        i = i + 1;
    }
    assert(seqs_of(chars@) =~= views_of(parts@));
    string_of(&join_chars(&chars, sep))
}

/// The pieces `parts[from..]`.
pub fn tail_of(parts: &Vec<Vec<char>>, from: usize) -> (r: Vec<Vec<char>>)
    requires
        from <= parts.len(),
    ensures
        seqs_of(r@) == seqs_of(parts@).skip(from as int),
{
    let mut out: Vec<Vec<char>> = Vec::new();
    let mut i: usize = from;
    while i < parts.len()
        invariant
            from <= i <= parts.len(),
            out.len() == i - from,
            forall|k: int| 0 <= k < i - from ==> out@[k]@ == parts@[from + k]@,
        decreases parts.len() - i,
    {
        let piece = copy_range(&parts[i], 0, parts[i].len());
        assert(parts@[i as int]@.subrange(0, parts@[i as int]@.len() as int) == parts@[i as int]@);
        out.push(piece);
        i = i + 1;
    }
    assert(seqs_of(out@) =~= seqs_of(parts@).skip(from as int));
    out
}


/// The pieces `parts[from..to]`.
pub fn parts_between(parts: &Vec<Vec<char>>, from: usize, to: usize) -> (r: Vec<Vec<char>>)
    requires
        from <= to <= parts.len(),
    ensures
        seqs_of(r@) == seqs_of(parts@).subrange(from as int, to as int),
{
    let mut out: Vec<Vec<char>> = Vec::new();
    let mut i: usize = from;
    while i < to
        invariant
            from <= i <= to <= parts.len(),
            out.len() == i - from,
            forall|k: int| 0 <= k < i - from ==> out@[k]@ == parts@[from + k]@,
        decreases to - i,
    {
        let piece = copy_range(&parts[i], 0, parts[i].len());
        assert(parts@[i as int]@.subrange(0, parts@[i as int]@.len() as int) == parts@[i as int]@);
        out.push(piece);
        i = i + 1;
    }
    assert(seqs_of(out@) =~= seqs_of(parts@).subrange(from as int, to as int));
    out
}

} // verus!
