//! The cache of package listings: one JSON file per key, valid for a time to
//! live that is checked when an entry is read.
//!
//! This module decides and frames; reading and writing the files is left to
//! the caller.

use vstd::prelude::*;
use crate::clock::now_seconds;
use crate::codec::{packages_from_json, packages_of, packages_to_json};
use crate::error::BoxyError;
use crate::json::{parsed, read_document, rendered, write_document, Json, JsonNumber};
use crate::package::{package_views, same_packages, Package, PackageView};
use crate::places::user_cache_dir;
use crate::text::{chars_of, copy_str, join2, matches_at, push_str, string_of, views_of};

verus! {

/// The directory that holds the cache below the user's cache directory.
pub const CACHE_DIR: &'static str = "boxy";

/// The default time to live, in seconds.
pub const CACHE_TTL: u64 = 3600;

/// Where the cache lives and how long an entry stays valid.
#[derive(Debug, Clone)]
pub struct CacheConfig {
    /// The cache directory; the user's cache directory is used where `None`.
    pub cache_dir: Option<String>,
    /// The time to live, in seconds.
    pub ttl: u64,
}

impl Default for CacheConfig {
    fn default() -> (c: CacheConfig)
        ensures
            c.cache_dir is None,
            c.ttl == CACHE_TTL,
    {
        CacheConfig { cache_dir: None, ttl: CACHE_TTL }
    }
}

/// A cached payload and the second at which it was stored.
#[derive(Debug, Clone)]
pub struct CacheEntry<T> {
    pub data: T,
    pub cached_at: i64,
}

/// The cache: a directory and a time to live.
#[derive(Debug)]
pub struct Cache {
    cache_dir: String,
    ttl: u64,
}

/// `name` below the directory `dir`, with `/` between them. An absolute
/// `name` stands alone.
pub open spec fn path_join(dir: Seq<char>, name: Seq<char>) -> Seq<char> {
    if name.len() > 0 && name[0] == '/' {
        name
    } else if dir.len() == 0 || dir.last() == '/' {
        dir + name
    } else {
        dir + seq!['/'] + name
    }
}

/// `name` below the directory `dir`.
pub fn join_path(dir: &str, name: &str) -> (r: String)
    ensures
        r@ == path_join(dir@, name@),
{
    let d = chars_of(dir);
    let n = chars_of(name);
    if n.len() > 0 && n[0] == '/' {
        return string_of(&n);
    }
    let mut out = d;
    if out.len() > 0 && out[out.len() - 1] != '/' {
        out.push('/');
    }
    push_str(&mut out, name);
    string_of(&out)
}

/// Whether an entry stored at `cached_at` is still valid at `now` with a
/// time to live of `ttl` seconds.
pub open spec fn fresh(cached_at: int, now: int, ttl: int) -> bool {
    now - cached_at <= ttl
}

/// The payload and the time of a cache document: an object with a `data`
/// entry and an integer `cached_at` entry.
pub open spec fn entry_of(doc: Json) -> Option<CacheEntry<Json>> {
    match (doc.field("data"@), doc.field("cached_at"@)) {
        (Some(data), Some(at)) => match at.signed() {
            Some(cached_at) => Some(CacheEntry { data, cached_at }),
            None => None,
        },
        _ => None,
    }
}

/// Whether `doc` is the cache document for `data` stored at `cached_at`.
pub open spec fn is_entry_doc(doc: Json, data: Json, cached_at: i64) -> bool {
    &&& doc matches Json::Object(entries)
    &&& entries@.len() == 2
    &&& entries@[0].0@ == "data"@
    &&& entries@[0].1 == data
    &&& entries@[1].0@ == "cached_at"@
    &&& entries@[1].1.signed() == Some(cached_at)
}

/// Whether `r` is what a read at `now` returns for the content of a
/// cache file, with a time to live of `ttl` seconds: the payload of a fresh
/// entry, a miss for an expired one, and an error for a content that is no
/// cache document.
pub open spec fn decodes(ttl: u64, content: Seq<char>, now: i64, r: Result<Option<Json>, BoxyError>)
    -> bool {
    match parsed(content) {
        Err(m) => r matches Err(BoxyError::JsonError { message }) && message@
            == "解析缓存失败: "@ + m,
        Ok(doc) => match entry_of(doc) {
            None => r matches Err(BoxyError::JsonError { message }) && message@
                == "解析缓存失败: 不是缓存条目"@,
            Some(entry) => r matches Ok(found) && found == if fresh(
                entry.cached_at as int,
                now as int,
                ttl as int,
            ) {
                Some(entry.data)
            } else {
                None
            },
        },
    }
}

/// The same for a cache file that holds a list of packages: a payload
/// that is no list of packages is an error, be the entry fresh or not.
pub open spec fn decodes_packages(
    ttl: u64,
    content: Seq<char>,
    now: i64,
    r: Result<Option<Vec<Package>>, BoxyError>,
) -> bool {
    match parsed(content) {
        Err(m) => r matches Err(BoxyError::JsonError { message }) && message@
            == "解析缓存失败: "@ + m,
        Ok(doc) => match entry_of(doc) {
            None => r matches Err(BoxyError::JsonError { message }) && message@
                == "解析缓存失败: 不是缓存条目"@,
            Some(entry) => match packages_of(entry.data) {
                None => r matches Err(BoxyError::JsonError { message }) && message@
                    == "解析缓存失败: 不是包列表"@,
                Some(list) => if fresh(entry.cached_at as int, now as int, ttl as int) {
                    r matches Ok(Some(v)) && package_views(v@) == list
                } else {
                    r matches Ok(None)
                },
            },
        },
    }
}

/// Whether `r` is what writing the document `doc` comes to: its text, or
/// an error with the writer's message.
pub open spec fn written_as(doc: Json, r: Result<String, BoxyError>) -> bool {
    match rendered(doc) {
        Ok(t) => r matches Ok(s) && s@ == t,
        Err(m) => r matches Err(BoxyError::JsonError { message }) && message@
            == "序列化缓存失败: "@ + m,
    }
}

/// Whether `r` is the content of the cache file for `data` stored at `now`.
pub open spec fn encodes(data: Json, now: i64, r: Result<String, BoxyError>) -> bool {
    exists|doc: Json| #[trigger] is_entry_doc(doc, data, now) && written_as(doc, r)
}

/// Whether the content `text` of a cache file holds the packages `list`
/// stored at `at`.
pub open spec fn stored_as(text: Seq<char>, list: Seq<PackageView>, at: i64) -> bool {
    &&& parsed(text) matches Ok(doc)
    &&& entry_of(doc) matches Some(entry)
    &&& entry.cached_at == at
    &&& packages_of(entry.data) == Some(list)
}

/// Whether `r` is what writing the packages `list` stored at `now` comes
/// to: the text of their cache document, where that text holds them again
/// when it is read; else an error, with the writer's message or with the
/// word that the text reads otherwise.
pub open spec fn encodes_packages(list: Seq<PackageView>, now: i64, r: Result<String, BoxyError>)
    -> bool {
    exists|doc: Json, data: Json| #[trigger]
        is_entry_doc(doc, data, now) && packages_of(data) == Some(list) && match rendered(doc) {
            Ok(t) => if stored_as(t, list, now) {
                r matches Ok(s) && s@ == t
            } else {
                r matches Err(BoxyError::JsonError { message }) && message@
                    == "序列化缓存失败: 回读不符"@
            },
            Err(m) => r matches Err(BoxyError::JsonError { message }) && message@
                == "序列化缓存失败: "@ + m,
        }
}

/// Takes the payload and the time out of a cache document.
pub fn split_entry(doc: Json) -> (r: Option<CacheEntry<Json>>)
    ensures
        r == entry_of(doc),
{
    let cached_at = match doc.get("cached_at") {
        Some(at) => match at.as_i64() {
            Some(t) => t,
            None => {
                return None;
            },
        },
        None => {
            return None;
        },
    };
    match doc.into_field("data") {
        Some(data) => Some(CacheEntry { data, cached_at }),
        None => None,
    }
}

/// Whether `r` is the cache that `config` describes, where `base` is the
/// user's cache directory if there is one: the directory of `config`, else
/// `boxy` below `base`, else an error.
pub open spec fn made(config: CacheConfig, base: Option<String>, r: Result<Cache, BoxyError>)
    -> bool {
    match (config.cache_dir, base) {
        (Some(d), _) => r matches Ok(c) && c.dir() == d@ && c.time_to_live() == config.ttl,
        (None, Some(b)) => r matches Ok(c) && c.dir() == path_join(b@, CACHE_DIR@)
            && c.time_to_live() == config.ttl,
        (None, None) => r matches Err(BoxyError::CacheError { message }) && message@
            == "无法获取缓存目录"@,
    }
}

impl Cache {
    /// The cache directory.
    pub closed spec fn dir(&self) -> Seq<char> {
        self.cache_dir@
    }

    /// The time to live, in seconds.
    pub closed spec fn time_to_live(&self) -> u64 {
        self.ttl
    }

    /// The cache in the user's cache directory with the default time to live.
    pub fn new() -> (r: Result<Cache, BoxyError>)
        ensures
            exists|base: Option<String>| #[trigger]
                made(CacheConfig { cache_dir: None, ttl: CACHE_TTL }, base, r),
    {
        Cache::new_with_config(CacheConfig::default())
    }

    /// The cache that `config` describes. The user's cache directory is
    /// asked for only where `config` names none.
    pub fn new_with_config(config: CacheConfig) -> (r: Result<Cache, BoxyError>)
        ensures
            config.cache_dir is Some ==> made(config, None, r),
            exists|base: Option<String>| #[trigger] made(config, base, r),
    {
        let base = if config.cache_dir.is_none() {
            user_cache_dir()
        } else {
            None
        };
        let r = Cache::with_base(config, base);
        assert(made(config, base, r));
        r
    }

    /// The cache that `config` describes, where `base` is the user's cache
    /// directory if there is one.
    pub fn with_base(config: CacheConfig, base: Option<String>) -> (r: Result<Cache, BoxyError>)
        ensures
            made(config, base, r),
    {
        let ttl = config.ttl;
        match config.cache_dir {
            Some(d) => Ok(Cache { cache_dir: d, ttl }),
            None => match base {
                Some(b) => Ok(Cache { cache_dir: join_path(b.as_str(), CACHE_DIR), ttl }),
                None => Err(BoxyError::CacheError { message: copy_str("无法获取缓存目录") }),
            },
        }
    }

    /// The cache directory.
    pub fn cache_dir(&self) -> (r: &str)
        ensures
            r@ == self.dir(),
    {
        self.cache_dir.as_str()
    }

    /// The time to live, in seconds.
    pub fn ttl(&self) -> (r: u64)
        ensures
            r == self.time_to_live(),
    {
        self.ttl
    }

    /// The file that holds the entry of `manager`.
    pub fn manager_path(&self, manager: &str) -> (r: String)
        ensures
            r@ == entry_path(self.dir(), manager@),
    {
        let name = join2(manager, ".json");
        join_path(self.cache_dir.as_str(), name.as_str())
    }

    /// Whether an entry stored at `cached_at` is still valid at `now`.
    pub fn is_fresh(&self, cached_at: i64, now: i64) -> (r: bool)
        ensures
            r == fresh(cached_at as int, now as int, self.time_to_live() as int),
    {
        (now as i128) - (cached_at as i128) <= (self.ttl as i128)
    }

    /// What a read at `now` returns for an entry: its payload while it is
    /// fresh, nothing once it has expired.
    pub fn lookup(&self, entry: CacheEntry<Json>, now: i64) -> (r: Option<Json>)
        ensures
            r == if fresh(entry.cached_at as int, now as int, self.time_to_live() as int) {
                Some(entry.data)
            } else {
                None
            },
            forall|key: Seq<char>|
                r == #[trigger] read(
                    Map::<Seq<char>, CacheEntry<Json>>::empty().insert(key, entry),
                    key,
                    now as int,
                    self.time_to_live() as int,
                ),
    {
        if self.is_fresh(entry.cached_at, now) {
            Some(entry.data)
        } else {
            None
        }
    }

    /// What a read at `now` returns for the content of a cache file. A
    /// content that is no cache document is an error; an expired entry is
    /// a miss.
    pub fn decode(&self, content: &str, now: i64) -> (r: Result<Option<Json>, BoxyError>)
        ensures
            decodes(self.time_to_live(), content@, now, r),
    {
        match read_document(content) {
            Err(m) => Err(BoxyError::JsonError { message: join2("解析缓存失败: ", m.as_str()) }),
            Ok(doc) => match split_entry(doc) {
                None => Err(
                    BoxyError::JsonError { message: copy_str("解析缓存失败: 不是缓存条目") },
                ),
                Some(entry) => Ok(self.lookup(entry, now)),
            },
        }
    }

    /// What a read returns now. `content` is the content of the cache file,
    /// `None` where there is no file: that is a miss.
    pub fn get(&self, content: Option<&str>) -> (r: Result<Option<Json>, BoxyError>)
        ensures
            content is None ==> r matches Ok(None),
            content matches Some(c) ==> exists|now: i64| #[trigger]
                decodes(self.time_to_live(), c@, now, r),
    {
        match content {
            None => Ok(None),
            Some(c) => {
                let now = now_seconds();
                let r = self.decode(c, now);
                assert(decodes(self.time_to_live(), c@, now, r));
                r
            },
        }
    }

    /// The content of the cache file for `data` stored at `now`.
    pub fn encode(data: Json, now: i64) -> (r: Result<String, BoxyError>)
        ensures
            encodes(data, now, r),
    {
        let at = if now >= 0 {
            Json::Number(JsonNumber::PosInt(now as u64))
        } else {
            Json::Number(JsonNumber::NegInt(now))
        };
        let mut entries: Vec<(String, Json)> = Vec::new();
        entries.push((copy_str("data"), data));
        entries.push((copy_str("cached_at"), at));
        let doc = Json::Object(entries);
        assert(is_entry_doc(doc, data, now));
        let r = match write_document(&doc) {
            Ok(t) => Ok(t),
            Err(m) => Err(BoxyError::JsonError { message: join2("序列化缓存失败: ", m.as_str()) }),
        };
        assert(written_as(doc, r));
        r
    }

    /// The content of the cache file for `data` stored now.
    pub fn set(data: Json) -> (r: Result<String, BoxyError>)
        ensures
            exists|now: i64| #[trigger] encodes(data, now, r),
    {
        let now = now_seconds();
        let r = Cache::encode(data, now);
        assert(encodes(data, now, r));
        r
    }
}


/// A file of the cache directory: its name and the time since it was last
/// written, in nanoseconds.
#[derive(Debug, Clone)]
pub struct CacheFile {
    pub name: String,
    pub elapsed: u128,
}

/// Whether a file of that name holds a cache entry: the name ends in
/// `.json` and is longer than that.
pub open spec fn entry_name(name: Seq<char>) -> bool {
    name.len() > 5 && name.skip(name.len() - 5) == ".json"@
}

/// Whether a sweep for files older than `older_than` removes the file.
pub open spec fn swept(name: Seq<char>, elapsed: u128, older_than: u128) -> bool {
    entry_name(name) && elapsed > older_than
}

/// The names of the files among the first `n` of `files` that a sweep
/// removes, in order.
pub open spec fn sweep_of(files: Seq<CacheFile>, older_than: u128, n: int) -> Seq<Seq<char>>
    decreases n,
{
    if n <= 0 {
        Seq::empty()
    } else if swept(files[n - 1].name@, files[n - 1].elapsed, older_than) {
        sweep_of(files, older_than, n - 1).push(files[n - 1].name@)
    } else {
        sweep_of(files, older_than, n - 1)
    }
}

/// Whether a file of that name holds a cache entry.
pub fn is_entry_name(name: &str) -> (r: bool)
    ensures
        r == entry_name(name@),
{
    let v = chars_of(name);
    let suffix = chars_of(".json");
    proof {
        reveal_strlit(".json");
    }
    if v.len() <= 5 {
        return false;
    }
    let at = v.len() - 5;
    let r = matches_at(&v, &suffix, at);
    assert(v@.subrange(at as int, at + 5) == v@.skip(at as int));
    r
}

impl Cache {
    /// The files that a sweep for entries older than `older_than`
    /// nanoseconds removes. Their number is the count that the sweep
    /// reports.
    pub fn clean(&self, files: &Vec<CacheFile>, older_than: u128) -> (r: Vec<String>)
        ensures
            views_of(r@) == sweep_of(files@, older_than, files.len() as int),
    {
        let mut out: Vec<String> = Vec::new();
        let mut i: usize = 0;
        assert(views_of(out@) =~= sweep_of(files@, older_than, 0));
        while i < files.len()
            invariant
                i <= files.len(),
                views_of(out@) == sweep_of(files@, older_than, i as int),
            decreases files.len() - i,
        {
            if is_entry_name(files[i].name.as_str()) && files[i].elapsed > older_than {
                let ghost before = views_of(out@);
                let name = files[i].name.clone();
                out.push(name);
                assert(views_of(out@) =~= before.push(name@));
            }
            i = i + 1;
        }
        out
    }
}

impl Cache {
    /// What a read at `now` returns for the content of a cache file that
    /// holds a list of packages. A payload that is no list of packages is
    /// an error, be the entry fresh or not.
    pub fn decode_packages(&self, content: &str, now: i64) -> (r: Result<
        Option<Vec<Package>>,
        BoxyError,
    >)
        ensures
            decodes_packages(self.time_to_live(), content@, now, r),
    {
        let doc = match read_document(content) {
            Err(m) => {
                return Err(
                    BoxyError::JsonError { message: join2("解析缓存失败: ", m.as_str()) },
                );
            },
            Ok(doc) => doc,
        };
        let entry = match split_entry(doc) {
            None => {
                return Err(
                    BoxyError::JsonError { message: copy_str("解析缓存失败: 不是缓存条目") },
                );
            },
            Some(entry) => entry,
        };
        match packages_from_json(&entry.data) {
            None => Err(BoxyError::JsonError { message: copy_str("解析缓存失败: 不是包列表") }),
            Some(list) => if self.is_fresh(entry.cached_at, now) {
                Ok(Some(list))
            } else {
                Ok(None)
            },
        }
    }

    /// What a read returns now for a cache file that holds a list of
    /// packages. `content` is `None` where there is no file.
    pub fn get_packages(&self, content: Option<&str>) -> (r: Result<
        Option<Vec<Package>>,
        BoxyError,
    >)
        ensures
            content is None ==> r matches Ok(None),
            content matches Some(c) ==> exists|now: i64| #[trigger]
                decodes_packages(self.time_to_live(), c@, now, r),
    {
        match content {
            None => Ok(None),
            Some(c) => {
                let now = now_seconds();
                let r = self.decode_packages(c, now);
                assert(decodes_packages(self.time_to_live(), c@, now, r));
                r
            },
        }
    }

    /// The content of the cache file for a list of packages stored at
    /// `now`. The text is read again before it is handed out: what is
    /// handed out holds the packages.
    pub fn encode_packages(list: &Vec<Package>, now: i64) -> (r: Result<String, BoxyError>)
        ensures
            encodes_packages(package_views(list@), now, r),
            r matches Ok(text) ==> stored_as(text@, package_views(list@), now),
    {
        let data = packages_to_json(list);
        let ghost wanted = package_views(list@);
        assert(packages_of(data) == Some(wanted));
        let at = if now >= 0 {
            Json::Number(JsonNumber::PosInt(now as u64))
        } else {
            Json::Number(JsonNumber::NegInt(now))
        };
        let mut entries: Vec<(String, Json)> = Vec::new();
        entries.push((copy_str("data"), data));
        entries.push((copy_str("cached_at"), at));
        let doc = Json::Object(entries);
        assert(is_entry_doc(doc, data, now));
        let text = match write_document(&doc) {
            Ok(t) => t,
            Err(m) => {
                return Err(
                    BoxyError::JsonError { message: join2("序列化缓存失败: ", m.as_str()) },
                );
            },
        };
        let held = match read_document(text.as_str()) {
            Ok(back) => match split_entry(back) {
                Some(entry) => entry.cached_at == now && match packages_from_json(&entry.data) {
                    Some(read) => same_packages(&read, list),
                    None => false,
                },
                None => false,
            },
            Err(_) => false,
        };
        assert(held == stored_as(text@, wanted, now));
        if held {
            Ok(text)
        } else {
            Err(BoxyError::JsonError { message: copy_str("序列化缓存失败: 回读不符") })
        }
    }

    /// The content of the cache file for a list of packages stored now.
    pub fn set_packages(list: &Vec<Package>) -> (r: Result<String, BoxyError>)
        ensures
            exists|now: i64| #[trigger]
                encodes_packages(package_views(list@), now, r) && (r matches Ok(text)
                    ==> stored_as(text@, package_views(list@), now)),
    {
        let now = now_seconds();
        let r = Cache::encode_packages(list, now);
        assert(encodes_packages(package_views(list@), now, r));
        r
    }
}

/// What the cache holds, as the entries by key.
pub type Stored = Map<Seq<char>, CacheEntry<Json>>;

/// What a read of `key` at `now` returns from `stored`: the payload of the
/// entry while it is fresh.
pub open spec fn read(stored: Stored, key: Seq<char>, now: int, ttl: int) -> Option<Json> {
    if stored.contains_key(key) && fresh(stored[key].cached_at as int, now, ttl) {
        Some(stored[key].data)
    } else {
        None
    }
}

/// What the cache holds after `data` was written under `key` at `now`.
pub open spec fn written(stored: Stored, key: Seq<char>, data: Json, now: i64) -> Stored {
    stored.insert(key, CacheEntry { data, cached_at: now })
}

/// What the cache holds after the entry of `key` was invalidated.
pub open spec fn invalidated(stored: Stored, key: Seq<char>) -> Stored {
    stored.remove(key)
}

/// A read returns a payload exactly for an entry that is there and whose
/// age is no more than the time to live.
pub proof fn law_read_iff_fresh(stored: Stored, key: Seq<char>, now: int, ttl: int)
    ensures
        read(stored, key, now, ttl) is Some <==> stored.contains_key(key) && now
            - stored[key].cached_at <= ttl,
        read(stored, key, now, ttl) matches Some(d) ==> d == stored[key].data,
{
}

/// What was written is read back as it was, at once and as long as the
/// time to live has not passed; after that it is a miss.
pub proof fn law_write_then_read(
    stored: Stored,
    key: Seq<char>,
    data: Json,
    at: i64,
    now: int,
    ttl: nat,
)
    ensures
        read(written(stored, key, data, at), key, at as int, ttl as int) == Some(data),
        now - at <= ttl ==> read(written(stored, key, data, at), key, now, ttl as int) == Some(
            data,
        ),
        now - at > ttl ==> read(written(stored, key, data, at), key, now, ttl as int) is None,
{
}

/// After an entry was invalidated a read of its key is a miss, and
/// invalidating a key that has no entry changes nothing.
pub proof fn law_invalidate_then_read(stored: Stored, key: Seq<char>, now: int, ttl: int)
    ensures
        read(invalidated(stored, key), key, now, ttl) is None,
        !stored.contains_key(key) ==> invalidated(stored, key) == stored,
{
    if !stored.contains_key(key) {
        assert(invalidated(stored, key) =~= stored);
    }
}

/// Writing or invalidating one key leaves what is read under every other
/// key as it was.
pub proof fn law_keys_independent(
    stored: Stored,
    key: Seq<char>,
    other: Seq<char>,
    data: Json,
    at: i64,
    now: int,
    ttl: int,
)
    requires
        key != other,
    ensures
        read(written(stored, key, data, at), other, now, ttl) == read(stored, other, now, ttl),
        read(invalidated(stored, key), other, now, ttl) == read(stored, other, now, ttl),
{
}


/// What was written is read back as it was: the text that holds packages
/// stored at `at` yields exactly these packages when it is read at `now`
/// while the entry is fresh, and a miss afterwards; it is never an error.
pub proof fn law_set_then_get(
    text: Seq<char>,
    list: Seq<PackageView>,
    at: i64,
    now: i64,
    ttl: u64,
    r: Result<Option<Vec<Package>>, BoxyError>,
)
    requires
        stored_as(text, list, at),
        decodes_packages(ttl, text, now, r),
    ensures
        r is Ok,
        now - at <= ttl ==> (r matches Ok(Some(v)) && package_views(v@) == list),
        now - at > ttl ==> r matches Ok(None),
        now == at ==> (r matches Ok(Some(v)) && package_views(v@) == list),
{
}


/// The files of a cache directory: their contents by their paths.
pub type Files = Map<Seq<char>, Seq<char>>;

/// The path of the file that holds the entry of `key` below `dir`.
pub open spec fn entry_path(dir: Seq<char>, key: Seq<char>) -> Seq<char> {
    path_join(dir, key + ".json"@)
}

/// Whether `r` is what a read of `key` at `now` returns from the files: a
/// miss where the key has no file, else what its content reads as.
pub open spec fn reads_from(
    files: Files,
    dir: Seq<char>,
    ttl: u64,
    key: Seq<char>,
    now: i64,
    r: Result<Option<Vec<Package>>, BoxyError>,
) -> bool {
    if files.contains_key(entry_path(dir, key)) {
        decodes_packages(ttl, files[entry_path(dir, key)], now, r)
    } else {
        r matches Ok(None)
    }
}

/// The files after `text` was written as the entry of `key`.
pub open spec fn after_set(files: Files, dir: Seq<char>, key: Seq<char>, text: Seq<char>) -> Files {
    files.insert(entry_path(dir, key), text)
}

/// The files after the entry of `key` was invalidated.
pub open spec fn after_invalidate(files: Files, dir: Seq<char>, key: Seq<char>) -> Files {
    files.remove(entry_path(dir, key))
}

/// The path of an entry tells the key, for keys that are no absolute paths.
pub proof fn lemma_entry_path_tells_key(dir: Seq<char>, key: Seq<char>, other: Seq<char>)
    requires
        key.len() == 0 || key[0] != '/',
        other.len() == 0 || other[0] != '/',
        entry_path(dir, key) == entry_path(dir, other),
    ensures
        key == other,
{
    reveal_strlit(".json");
    let a = key + ".json"@;
    let b = other + ".json"@;
    assert(a.len() > 0 && a[0] != '/') by {
        if key.len() > 0 {
            assert(a[0] == key[0]);
        } else {
            assert(a[0] == ".json"@[0]);
        }
    }
    assert(b.len() > 0 && b[0] != '/') by {
        if other.len() > 0 {
            assert(b[0] == other[0]);
        } else {
            assert(b[0] == ".json"@[0]);
        }
    }
    let head = if dir.len() == 0 || dir.last() == '/' {
        dir
    } else {
        dir + seq!['/']
    };
    assert(entry_path(dir, key) =~= head + a);
    assert(entry_path(dir, other) =~= head + b);
    assert(a =~= (head + a).skip(head.len() as int));
    assert(b =~= (head + b).skip(head.len() as int));
    assert(a == b);
    assert(key =~= a.take(a.len() - 5));
    assert(other =~= b.take(b.len() - 5));
}

/// The cache over its files: what `set` wrote under a key is what `get`
/// reads under it while it is fresh, and a miss afterwards; after
/// `invalidate` the key reads as a miss, and invalidating a key without an
/// entry changes nothing; and the entries of other keys read as before.
pub proof fn law_cache_over_files(
    files: Files,
    dir: Seq<char>,
    ttl: u64,
    key: Seq<char>,
    other: Seq<char>,
    text: Seq<char>,
    list: Seq<PackageView>,
    at: i64,
    now: i64,
    r: Result<Option<Vec<Package>>, BoxyError>,
)
    requires
        stored_as(text, list, at),
        key.len() == 0 || key[0] != '/',
        other.len() == 0 || other[0] != '/',
        key != other,
    ensures
        reads_from(after_set(files, dir, key, text), dir, ttl, key, now, r) ==> (if now - at
            <= ttl {
            r matches Ok(Some(v)) && package_views(v@) == list
        } else {
            r matches Ok(None)
        }),
        reads_from(after_invalidate(files, dir, key), dir, ttl, key, now, r) ==> r matches Ok(
            None,
        ),
        !files.contains_key(entry_path(dir, key)) ==> after_invalidate(files, dir, key) == files,
        reads_from(after_set(files, dir, key, text), dir, ttl, other, now, r) == reads_from(
            files,
            dir,
            ttl,
            other,
            now,
            r,
        ),
        reads_from(after_invalidate(files, dir, key), dir, ttl, other, now, r) == reads_from(
            files,
            dir,
            ttl,
            other,
            now,
            r,
        ),
{
    if entry_path(dir, key) == entry_path(dir, other) {
        lemma_entry_path_tells_key(dir, key, other);
    }
    if !files.contains_key(entry_path(dir, key)) {
        assert(after_invalidate(files, dir, key) =~= files);
    }
}

} // verus!
