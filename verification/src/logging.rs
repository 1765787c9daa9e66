//! The log files of the desktop front end: one file of JSON lines per day,
//! kept for a week.
//!
//! This module names the files and says which to keep and what to show;
//! reading and writing them is left to the caller.

use vstd::prelude::*;
use crate::adapter::str_view;
use crate::cache::{join_path, path_join};
use crate::clock::{day_number, day_of};
use crate::codec::lemma_entry_at;
use crate::json::{rendered_line, write_line, Json};
use crate::places::{user_cache_dir, user_home_dir};
use crate::text::{
    chars_of, copy_range, copy_str, has_prefix, join3, lines, matches_at, opt_view, seqs_of,
    split_lines, string_of, trim, trimmed, views_of,
};

verus! {

/// The directory of the logs below the directory of all logs.
pub const LOG_DIR_NAME: &'static str = "Boxy";

/// How the name of a log file starts.
pub const LOG_FILE_PREFIX: &'static str = "boxy-";

/// How the name of a log file ends.
pub const LOG_FILE_SUFFIX: &'static str = ".jsonl";

/// The size at which a log file takes no more lines.
pub const MAX_LOG_BYTES: u64 = 5242880;

/// For how many days a log file is kept.
pub const RETENTION_DAYS: i32 = 7;

/// How many lines are shown at most.
pub const MAX_LOG_LINES: usize = 2000;

/// The directory of the logs: `Library/Logs/Boxy` below the home directory
/// where that is known, else `Boxy/Logs` below the cache directory.
pub open spec fn log_dir(home: Option<Seq<char>>, cache: Option<Seq<char>>) -> Option<Seq<char>> {
    match home {
        Some(h) => Some(path_join(path_join(path_join(h, "Library"@), "Logs"@), LOG_DIR_NAME@)),
        None => match cache {
            Some(c) => Some(path_join(path_join(c, LOG_DIR_NAME@), "Logs"@)),
            None => None,
        },
    }
}

/// Whether `r` is the directory of the logs for those directories, or the
/// error that there is none.
pub open spec fn resolves_to(
    home: Option<Seq<char>>,
    cache: Option<Seq<char>>,
    r: Result<String, String>,
) -> bool {
    match log_dir(home, cache) {
        Some(dir) => r matches Ok(d) && d@ == dir,
        None => r matches Err(e) && e@ == "无法解析日志目录"@,
    }
}

/// The directory of the logs, given the home and the cache directory of
/// the user as far as they are known.
pub fn resolve_log_dir(home: Option<&str>, cache: Option<&str>) -> (r: Result<String, String>)
    ensures
        resolves_to(str_view(home), str_view(cache), r),
{
    match home {
        Some(h) => {
            let a = join_path(h, "Library");
            let b = join_path(a.as_str(), "Logs");
            Ok(join_path(b.as_str(), LOG_DIR_NAME))
        },
        None => match cache {
            Some(c) => {
                let a = join_path(c, LOG_DIR_NAME);
                Ok(join_path(a.as_str(), "Logs"))
            },
            None => Err(copy_str("无法解析日志目录")),
        },
    }
}

/// The directory of the logs of this user.
pub fn log_path_display() -> (r: Result<String, String>)
    ensures
        exists|home: Option<Seq<char>>, cache: Option<Seq<char>>| #[trigger]
            resolves_to(home, cache, r),
{
    let home = user_home_dir();
    let cache = if home.is_none() {
        user_cache_dir()
    } else {
        None
    };
    let r = resolve_log_dir(
        match &home {
            Some(h) => Some(h.as_str()),
            None => None,
        },
        match &cache {
            Some(c) => Some(c.as_str()),
            None => None,
        },
    );
    assert(resolves_to(opt_view(home), opt_view(cache), r));
    r
}

/// The name of the log file of the day `date`, written as `2024-05-17`.
pub fn log_file_name(date: &str) -> (r: String)
    ensures
        r@ == LOG_FILE_PREFIX@ + date@ + LOG_FILE_SUFFIX@,
{
    join3(LOG_FILE_PREFIX, date, LOG_FILE_SUFFIX)
}

/// A line as it is appended to a log file: with a line feed at its end.
pub fn append_line(line: &str) -> (r: String)
    ensures
        r@ == line@.push('\n'),
{
    let mut v = chars_of(line);
    v.push('\n');
    string_of(&v)
}

/// Whether a log file of that size takes more lines; a file that is not
/// there yet does.
pub fn may_append(size: Option<u64>) -> (r: bool)
    ensures
        r == match size {
            Some(n) => n < MAX_LOG_BYTES,
            None => true,
        },
{
    match size {
        Some(n) => n < MAX_LOG_BYTES,
        None => true,
    }
}

/// Whether `s` ends with `p`.
pub open spec fn has_suffix(s: Seq<char>, p: Seq<char>) -> bool {
    p.len() <= s.len() && s.skip(s.len() - p.len()) == p
}

/// `s` without every `p` at its start.
pub open spec fn without_prefixes(s: Seq<char>, p: Seq<char>) -> Seq<char>
    decreases s.len(),
{
    if p.len() > 0 && has_prefix(s, p) {
        without_prefixes(s.skip(p.len() as int), p)
    } else {
        s
    }
}

/// `s` without every `p` at its end.
pub open spec fn without_suffixes(s: Seq<char>, p: Seq<char>) -> Seq<char>
    decreases s.len(),
{
    if p.len() > 0 && has_suffix(s, p) {
        without_suffixes(s.take(s.len() - p.len()), p)
    } else {
        s
    }
}

/// The text that stands for the day in the name of a log file: what is
/// left of a name that starts and ends as log files do, once every prefix
/// and every suffix is taken off.
pub open spec fn date_part(name: Seq<char>) -> Option<Seq<char>> {
    if has_prefix(name, LOG_FILE_PREFIX@) && has_suffix(name, LOG_FILE_SUFFIX@) {
        Some(without_suffixes(without_prefixes(name, LOG_FILE_PREFIX@), LOG_FILE_SUFFIX@))
    } else {
        None
    }
}

/// The day of a log file, by its name.
pub open spec fn log_day(name: Seq<char>) -> Option<i32> {
    match date_part(name) {
        Some(text) => day_number(text),
        None => None,
    }
}

fn ends_with(v: &Vec<char>, p: &Vec<char>) -> (r: bool)
    ensures
        r == has_suffix(v@, p@),
{
    if p.len() > v.len() {
        return false;
    }
    let at = v.len() - p.len();
    let r = matches_at(v, p, at);
    assert(v@.subrange(at as int, at + p@.len()) == v@.skip(at as int));
    r
}

/// The text that stands for the day in the name of a log file.
pub fn date_text(name: &str) -> (r: Option<String>)
    ensures
        opt_view(r) == date_part(name@),
{
    let v = chars_of(name);
    let prefix = chars_of(LOG_FILE_PREFIX);
    let suffix = chars_of(LOG_FILE_SUFFIX);
    if !(matches_at(&v, &prefix, 0) && ends_with(&v, &suffix)) {
        assert(v@.subrange(0, prefix@.len() as int) == v@.take(prefix@.len() as int));
        return None;
    }
    assert(v@.subrange(0, prefix@.len() as int) == v@.take(prefix@.len() as int));
    let mut from: usize = 0;
    assert(v@.skip(0) == v@);
    while prefix.len() > 0 && matches_at(&v, &prefix, from)
        invariant
            from <= v.len(),
            without_prefixes(v@, prefix@) == without_prefixes(v@.skip(from as int), prefix@),
        decreases v.len() - from,
    {
        proof {
            let rest = v@.skip(from as int);
            assert(rest.take(prefix@.len() as int) == v@.subrange(
                from as int,
                from + prefix@.len(),
            ));
            assert(rest.skip(prefix@.len() as int) == v@.skip(from + prefix@.len()));
        }
        from = from + prefix.len();
    }
    proof {
        let rest = v@.skip(from as int);
        if prefix@.len() > 0 && prefix@.len() <= rest.len() {
            assert(rest.take(prefix@.len() as int) == v@.subrange(
                from as int,
                from + prefix@.len(),
            ));
        }
    }
    let body = copy_range(&v, from, v.len());
    assert(body@ == v@.skip(from as int));
    let mut to: usize = body.len();
    assert(body@.take(to as int) == body@);
    while suffix.len() > 0 && to >= suffix.len() && matches_at(&body, &suffix, to - suffix.len())
        invariant
            to <= body.len(),
            without_suffixes(body@, suffix@) == without_suffixes(body@.take(to as int), suffix@),
        decreases to,
    {
        proof {
            let rest = body@.take(to as int);
            assert(rest.skip(rest.len() - suffix@.len()) == body@.subrange(
                to - suffix@.len(),
                to as int,
            ));
            assert(rest.take(rest.len() - suffix@.len()) == body@.take(to - suffix@.len()));
        }
        to = to - suffix.len();
    }
    proof {
        let rest = body@.take(to as int);
        if suffix@.len() > 0 && suffix@.len() <= rest.len() {
            assert(rest.skip(rest.len() - suffix@.len()) == body@.subrange(
                to - suffix@.len(),
                to as int,
            ));
        }
    }
    let kept = copy_range(&body, 0, to);
    assert(kept@ == body@.take(to as int));
    Some(string_of(&kept))
}

/// The day of a log file, by its name: none for a file that is no log
/// file or names no day.
pub fn parse_log_file(name: &str) -> (r: Option<i32>)
    ensures
        r == log_day(name@),
{
    match date_text(name) {
        Some(text) => day_of(text.as_str()),
        None => None,
    }
}

/// Whether a log file of the day `day` is removed on the day `today`: it
/// is older than the days of retention.
pub open spec fn stale(day: i32, today: i32) -> bool {
    day < today - RETENTION_DAYS
}

/// The names among the first `n` of `names` of the log files that are
/// removed on the day `today`.
pub open spec fn stale_among(names: Seq<Seq<char>>, today: i32, n: int) -> Seq<Seq<char>>
    decreases n,
{
    if n <= 0 {
        Seq::empty()
    } else {
        match log_day(names[n - 1]) {
            Some(day) if stale(day, today) => stale_among(names, today, n - 1).push(names[n - 1]),
            _ => stale_among(names, today, n - 1),
        }
    }
}

/// The log files to remove on the day `today`, among the files of the log
/// directory.
pub fn cleanup_old_logs(names: &Vec<String>, today: i32) -> (r: Vec<String>)
    ensures
        views_of(r@) == stale_among(views_of(names@), today, names.len() as int),
{
    let mut out: Vec<String> = Vec::new();
    let mut i: usize = 0;
    assert(views_of(out@) =~= stale_among(views_of(names@), today, 0));
    while i < names.len()
        invariant
            i <= names.len(),
            views_of(out@) == stale_among(views_of(names@), today, i as int),
        decreases names.len() - i,
    {
        assert(views_of(names@)[i as int] == names@[i as int]@);
        match parse_log_file(names[i].as_str()) {
            Some(day) => {
                if (day as i64) < (today as i64) - (RETENTION_DAYS as i64) {
                    let ghost before = views_of(out@);
                    let name = names[i].clone();
                    out.push(name);
                    assert(views_of(out@) =~= before.push(name@));
                }
            },
            None => {},
        }
        i = i + 1;
    }
    out
}

/// The lines among the first `n` of `rows` that are not blank.
pub open spec fn filled_among(rows: Seq<Seq<char>>, n: int) -> Seq<Seq<char>>
    decreases n,
{
    if n <= 0 {
        Seq::empty()
    } else if trim(rows[n - 1]).len() == 0 {
        filled_among(rows, n - 1)
    } else {
        filled_among(rows, n - 1).push(rows[n - 1])
    }
}

/// The lines of a text that are not blank.
pub open spec fn filled_lines(content: Seq<char>) -> Seq<Seq<char>> {
    filled_among(lines(content), lines(content).len() as int)
}

/// The lines of the first `n` of `contents` that are not blank, file
/// after file.
pub open spec fn all_lines(contents: Seq<Seq<char>>, n: int) -> Seq<Seq<char>>
    decreases n,
{
    if n <= 0 {
        Seq::empty()
    } else {
        all_lines(contents, n - 1) + filled_lines(contents[n - 1])
    }
}

/// At most the first `limit` of `s`.
pub open spec fn capped(s: Seq<Seq<char>>, limit: int) -> Seq<Seq<char>> {
    if s.len() > limit {
        s.take(limit)
    } else {
        s
    }
}

/// The lines of a log file that are not blank.
pub fn read_lines_of(content: &str) -> (r: Vec<String>)
    ensures
        views_of(r@) == filled_lines(content@),
{
    let all = split_lines(&chars_of(content));
    let ghost rows = lines(content@);
    let mut out: Vec<String> = Vec::new();
    let mut i: usize = 0;
    assert(views_of(out@) =~= filled_among(rows, 0));
    while i < all.len()
        invariant
            i <= all.len(),
            seqs_of(all@) == rows,
            views_of(out@) == filled_among(rows, i as int),
        decreases all.len() - i,
    {
        assert(rows[i as int] == all@[i as int]@);
        if trimmed(&all[i]).len() > 0 {
            let ghost before = views_of(out@);
            let line = string_of(&all[i]);
            out.push(line);
            assert(views_of(out@) =~= before.push(line@));
        }
        i = i + 1;
    }
    out
}

/// The lines to show: those of the log files that are not blank, file
/// after file in the order given, up to the limit on the lines.
pub fn read_logs(contents: &Vec<String>) -> (r: Vec<String>)
    ensures
        views_of(r@) == capped(
            all_lines(views_of(contents@), contents.len() as int),
            MAX_LOG_LINES as int,
        ),
{
    let mut out: Vec<String> = Vec::new();
    let mut i: usize = 0;
    assert(views_of(out@) =~= all_lines(views_of(contents@), 0));
    while i < contents.len()
        invariant
            i <= contents.len(),
            out.len() < MAX_LOG_LINES,
            views_of(out@) == all_lines(views_of(contents@), i as int),
        decreases contents.len() - i,
    {
        assert(views_of(contents@)[i as int] == contents@[i as int]@);
        let more = read_lines_of(contents[i].as_str());
        let ghost before = views_of(out@);
        let ghost added = views_of(more@);
        let mut k: usize = 0;
        while k < more.len()
            invariant
                k <= more.len(),
                i < contents.len(),
                out.len() < MAX_LOG_LINES,
                added == views_of(more@),
                before == all_lines(views_of(contents@), i as int),
                added == filled_lines(views_of(contents@)[i as int]),
                views_of(out@) == before + added.take(k as int),
            decreases more.len() - k,
        {
            let ghost sofar = views_of(out@);
            let line = more[k].clone();
            out.push(line);
            assert(views_of(out@) =~= sofar.push(line@));
            assert(added.take(k + 1) =~= added.take(k as int).push(added[k as int]));
            assert(views_of(out@) =~= before + added.take(k + 1));
            if out.len() >= MAX_LOG_LINES {
                proof {
                    let whole = all_lines(views_of(contents@), i + 1);
                    assert(whole == before + added);
                    assert(views_of(out@) =~= whole.take(MAX_LOG_LINES as int));
                    lemma_all_lines_grow(views_of(contents@), i + 1, contents.len() as int);
                    let total = all_lines(views_of(contents@), contents.len() as int);
                    assert(total.take(MAX_LOG_LINES as int) =~= whole.take(MAX_LOG_LINES as int));
                }
                return out;
            }
            k = k + 1;
        }
        assert(added.take(more.len() as int) == added);
        i = i + 1;
    }
    out
}

/// The lines of more files begin with the lines of fewer.
pub proof fn lemma_all_lines_grow(contents: Seq<Seq<char>>, n: int, m: int)
    requires
        0 <= n <= m,
    ensures
        all_lines(contents, n).len() <= all_lines(contents, m).len(),
        all_lines(contents, m).take(all_lines(contents, n).len() as int) == all_lines(
            contents,
            n,
        ),
    decreases m - n,
{
    if n < m {
        lemma_all_lines_grow(contents, n, m - 1);
        let a = all_lines(contents, n);
        let b = all_lines(contents, m - 1);
        let c = all_lines(contents, m);
        assert(c.take(a.len() as int) =~= b.take(a.len() as int));
    } else {
        assert(all_lines(contents, n).take(all_lines(contents, n).len() as int) =~= all_lines(
            contents,
            n,
        ));
    }
}

/// Whether `doc` is the entry of the front end for a message.
pub open spec fn is_frontend_entry(
    doc: Json,
    timestamp: Seq<char>,
    level: Seq<char>,
    message: Seq<char>,
) -> bool {
    &&& doc.field("timestamp"@) matches Some(t) && t.text() == Some(timestamp)
    &&& doc.field("level"@) matches Some(l) && l.text() == Some(level)
    &&& doc.field("target"@) matches Some(g) && g.text() == Some("frontend"@)
    &&& doc.field("message"@) matches Some(m) && m.text() == Some(message)
    &&& doc matches Json::Object(entries) && entries@.len() == 4
}

/// The line that the log gets for a message of the front end at the time
/// `timestamp`.
pub fn frontend_log_line(timestamp: &str, level: &str, message: &str) -> (r: Result<
    String,
    String,
>)
    ensures
        exists|doc: Json| #[trigger]
            is_frontend_entry(doc, timestamp@, level@, message@) && match rendered_line(doc) {
                Ok(t) => r matches Ok(s) && s@ == t,
                Err(m) => r matches Err(e) && e@ == m,
            },
{
    let mut entries: Vec<(String, Json)> = Vec::new();
    entries.push((copy_str("timestamp"), Json::Text(copy_str(timestamp))));
    entries.push((copy_str("level"), Json::Text(copy_str(level))));
    entries.push((copy_str("target"), Json::Text(copy_str("frontend"))));
    entries.push((copy_str("message"), Json::Text(copy_str(message))));
    proof {
        reveal_strlit("timestamp");
        reveal_strlit("level");
        reveal_strlit("target");
        reveal_strlit("message");
        let e = entries@;
        assert(e[0].0@.len() == 9);
        assert(e[1].0@.len() == 5);
        assert(e[2].0@.len() == 6);
        assert(e[3].0@.len() == 7);
        lemma_entry_at(e, 0);
        lemma_entry_at(e, 1);
        lemma_entry_at(e, 2);
        lemma_entry_at(e, 3);
    }
    let doc = Json::Object(entries);
    assert(is_frontend_entry(doc, timestamp@, level@, message@));
    write_line(&doc)
}


/// A log file and its day.
#[derive(Debug, Clone)]
pub struct LogFile {
    pub day: i32,
    pub name: String,
}

/// What a list of log files holds, as plain values.
pub open spec fn file_views(s: Seq<LogFile>) -> Seq<(i32, Seq<char>)> {
    s.map_values(|f: LogFile| (f.day, f.name@))
}

/// The log files among the first `n` of `names`, with their days.
pub open spec fn dated_among(names: Seq<Seq<char>>, n: int) -> Seq<(i32, Seq<char>)>
    decreases n,
{
    if n <= 0 {
        Seq::empty()
    } else {
        match log_day(names[n - 1]) {
            Some(day) => dated_among(names, n - 1).push((day, names[n - 1])),
            None => dated_among(names, n - 1),
        }
    }
}

/// Whether no file comes before a file of a later day.
pub open spec fn newest_first_order(s: Seq<(i32, Seq<char>)>) -> bool {
    forall|i: int, j: int| 0 <= i < j < s.len() ==> s[i].0 >= s[j].0
}

/// The log files among the files of the log directory, with their days.
pub fn collect_log_files(names: &Vec<String>) -> (r: Vec<LogFile>)
    ensures
        file_views(r@) == dated_among(views_of(names@), names.len() as int),
{
    let mut out: Vec<LogFile> = Vec::new();
    let mut i: usize = 0;
    assert(file_views(out@) =~= dated_among(views_of(names@), 0));
    while i < names.len()
        invariant
            i <= names.len(),
            file_views(out@) == dated_among(views_of(names@), i as int),
        decreases names.len() - i,
    {
        assert(views_of(names@)[i as int] == names@[i as int]@);
        match parse_log_file(names[i].as_str()) {
            Some(day) => {
                let ghost before = file_views(out@);
                let file = LogFile { day, name: names[i].clone() };
                out.push(file);
                assert(file_views(out@) =~= before.push((file.day, file.name@)));
            },
            None => {},
        }
        i = i + 1;
    }
    out
}

/// The log files in the order in which they are shown: the newest first.
/// The files of one day stay in the order they came in.
pub fn newest_first(files: &Vec<LogFile>) -> (r: Vec<LogFile>)
    ensures
        newest_first_order(file_views(r@)),
        file_views(r@).to_multiset() == file_views(files@).to_multiset(),
{
    let mut out: Vec<LogFile> = Vec::new();
    let mut i: usize = 0;
    assert(file_views(out@) =~= file_views(files@).take(0));
    while i < files.len()
        invariant
            i <= files.len(),
            out.len() == i,
            newest_first_order(file_views(out@)),
            file_views(out@).to_multiset() == file_views(files@).take(i as int).to_multiset(),
        decreases files.len() - i,
    {
        let day = files[i].day;
        let mut at: usize = 0;
        while at < out.len() && out[at].day >= day
            invariant
                at <= out.len(),
                forall|k: int| 0 <= k < at ==> file_views(out@)[k].0 >= day,
            decreases out.len() - at,
        {
            assert(file_views(out@)[at as int].0 == out@[at as int].day);
            at = at + 1;
        }
        let ghost before = file_views(out@);
        let file = LogFile { day, name: files[i].name.clone() };
        let ghost entry = (file.day, file.name@);
        proof {
            if at < out.len() {
                assert(before[at as int].0 == out@[at as int].day);
            }
        }
        out.insert(at, file);
        proof {
            let after = file_views(out@);
            assert(after =~= before.insert(at as int, entry));
            vstd::seq_lib::to_multiset_insert(before, at as int, entry);
            let taken = file_views(files@).take(i as int);
            assert(file_views(files@).take(i + 1) =~= taken.push(entry));
            vstd::seq_lib::to_multiset_build(taken, entry);
            assert forall|a: int, b: int| 0 <= a < b < after.len() implies after[a].0
                >= after[b].0 by {
                if b < at {
                    assert(after[a] == before[a] && after[b] == before[b]);
                } else if b == at {
                    assert(after[a] == before[a]);
                } else if a < at {
                    assert(after[a] == before[a] && after[b] == before[b - 1]);
                } else if a == at {
                    assert(after[b] == before[b - 1]);
                    assert(before[at as int].0 < day);
                } else {
                    assert(after[a] == before[a - 1] && after[b] == before[b - 1]);
                }
            }
        }
        i = i + 1;
    }
    assert(file_views(files@).take(files.len() as int) == file_views(files@));
    out
}

} // verus!
