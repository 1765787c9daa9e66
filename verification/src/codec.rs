//! Packages as JSON documents: the form in which the cache keeps them and
//! in which results are handed out.

use vstd::prelude::*;
use crate::adapter::opt_package;
use crate::json::{entry_index, Json, JsonNumber};
use crate::package::{package_views, Package, PackageView};
use crate::text::{copy_str, opt_view};

verus! {

/// The text under `key`, which must be there.
pub open spec fn text_at(doc: Json, key: Seq<char>) -> Option<Seq<char>> {
    match doc.field(key) {
        Some(v) => v.text(),
        None => None,
    }
}

/// The text under `key`, which may be missing or null. The outer `None`
/// says that there is something else under the key.
pub open spec fn optional_text_at(doc: Json, key: Seq<char>) -> Option<Option<Seq<char>>> {
    match doc.field(key) {
        None => Some(None),
        Some(Json::Null) => Some(None),
        Some(v) => match v.text() {
            Some(t) => Some(Some(t)),
            None => None,
        },
    }
}

/// The number under `key`, which may be missing or null. The outer `None`
/// says that there is something else under the key.
pub open spec fn optional_number_at(doc: Json, key: Seq<char>) -> Option<Option<u64>> {
    match doc.field(key) {
        None => Some(None),
        Some(Json::Null) => Some(None),
        Some(v) => match v.unsigned() {
            Some(n) => Some(Some(n)),
            None => None,
        },
    }
}

/// The truth value under `key`, which must be there.
pub open spec fn truth_at(doc: Json, key: Seq<char>) -> Option<bool> {
    match doc.field(key) {
        Some(v) => v.truth(),
        None => None,
    }
}

/// The package that a document describes: an object with the texts `name`,
/// `version` and `manager`, the truth value `outdated`, and optionally the
/// texts `description`, `homepage`, `license`, `installed_path` and
/// `latest_version` and the number `size`. Other entries are passed over.
pub open spec fn package_of(doc: Json) -> Option<PackageView> {
    if !(doc is Object) {
        None
    } else {
        match (
            text_at(doc, "name"@),
            text_at(doc, "version"@),
            text_at(doc, "manager"@),
            optional_text_at(doc, "description"@),
            optional_text_at(doc, "homepage"@),
            optional_text_at(doc, "license"@),
            optional_text_at(doc, "installed_path"@),
            optional_number_at(doc, "size"@),
            truth_at(doc, "outdated"@),
            optional_text_at(doc, "latest_version"@),
        ) {
            (
                Some(name),
                Some(version),
                Some(manager),
                Some(description),
                Some(homepage),
                Some(license),
                Some(installed_path),
                Some(size),
                Some(outdated),
                Some(latest_version),
            ) => Some(
                PackageView {
                    name,
                    version,
                    manager,
                    description,
                    homepage,
                    license,
                    installed_path,
                    size,
                    outdated,
                    latest_version,
                },
            ),
            _ => None,
        }
    }
}

/// The packages that the first `n` items of an array describe; none where
/// one of them describes no package.
pub open spec fn packages_among(items: Seq<Json>, n: int) -> Option<Seq<PackageView>>
    decreases n,
{
    if n <= 0 {
        Some(Seq::empty())
    } else {
        match (packages_among(items, n - 1), package_of(items[n - 1])) {
            (Some(before), Some(p)) => Some(before.push(p)),
            _ => None,
        }
    }
}

/// The packages that a document describes: an array of packages.
pub open spec fn packages_of(doc: Json) -> Option<Seq<PackageView>> {
    match doc.items() {
        Some(items) => packages_among(items, items.len() as int),
        None => None,
    }
}

/// The text under `key`, which must be there.
pub fn required_text(doc: &Json, key: &str) -> (r: Option<String>)
    ensures
        opt_view(r) == text_at(*doc, key@),
{
    match doc.get(key) {
        Some(v) => match v.as_str() {
            Some(s) => Some(copy_str(s)),
            None => None,
        },
        None => None,
    }
}

/// The text under `key`, which may be missing or null.
pub fn optional_text(doc: &Json, key: &str) -> (r: Option<Option<String>>)
    ensures
        match optional_text_at(*doc, key@) {
            Some(t) => r matches Some(x) && opt_view(x) == t,
            None => r is None,
        },
{
    match doc.get(key) {
        None => Some(None),
        Some(v) => match v {
            Json::Null => Some(None),
            Json::Text(s) => Some(Some(s.clone())),
            _ => None,
        },
    }
}

fn optional_number(doc: &Json, key: &str) -> (r: Option<Option<u64>>)
    ensures
        r == optional_number_at(*doc, key@),
{
    match doc.get(key) {
        None => Some(None),
        Some(v) => match v {
            Json::Null => Some(None),
            Json::Number(JsonNumber::PosInt(n)) => Some(Some(*n)),
            _ => None,
        },
    }
}

/// The package that a document describes.
pub fn package_from_json(doc: &Json) -> (r: Option<Package>)
    ensures
        opt_package(r) == package_of(*doc),
{
    match doc {
        Json::Object(_) => {},
        _ => {
            return None;
        },
    }
    let name = required_text(doc, "name");
    let version = required_text(doc, "version");
    let manager = required_text(doc, "manager");
    let description = optional_text(doc, "description");
    let homepage = optional_text(doc, "homepage");
    let license = optional_text(doc, "license");
    let installed_path = optional_text(doc, "installed_path");
    let size = optional_number(doc, "size");
    let outdated = match doc.get("outdated") {
        Some(v) => v.as_bool(),
        None => None,
    };
    let latest_version = optional_text(doc, "latest_version");
    match (
        name,
        version,
        manager,
        description,
        homepage,
        license,
        installed_path,
        size,
        outdated,
        latest_version,
    ) {
        (
            Some(name),
            Some(version),
            Some(manager),
            Some(description),
            Some(homepage),
            Some(license),
            Some(installed_path),
            Some(size),
            Some(outdated),
            Some(latest_version),
        ) => Some(
            Package {
                name,
                version,
                manager,
                description,
                homepage,
                license,
                installed_path,
                size,
                outdated,
                latest_version,
            },
        ),
        _ => None,
    }
}

/// The packages that a document describes.
pub fn packages_from_json(doc: &Json) -> (r: Option<Vec<Package>>)
    ensures
        match packages_of(*doc) {
            Some(list) => r matches Some(v) && package_views(v@) == list,
            None => r is None,
        },
{
    match doc.as_array() {
        None => None,
        Some(items) => {
            let mut out: Vec<Package> = Vec::new();
            let mut i: usize = 0;
            assert(package_views(out@) =~= Seq::<PackageView>::empty());
            while i < items.len()
                invariant
                    i <= items.len(),
                    doc.items() == Some(items@),
                    packages_among(items@, i as int) == Some(package_views(out@)),
                decreases items.len() - i,
            {
                match package_from_json(&items[i]) {
                    Some(p) => {
                        let ghost before = package_views(out@);
                        out.push(p);
                        assert(package_views(out@) =~= before.push(p@));
                    },
                    None => {
                        proof {
                            assert(packages_among(items@, i + 1) is None);
                            lemma_packages_among_none(items@, i + 1, items.len() as int);
                        }
                        return None;
                    },
                }
                i = i + 1;
            }
            Some(out)
        },
    }
}

/// Where the first `n` items describe no list of packages, no longer
/// prefix does.
pub proof fn lemma_packages_among_none(items: Seq<Json>, n: int, m: int)
    requires
        0 <= n <= m,
        packages_among(items, n) is None,
    ensures
        packages_among(items, m) is None,
    decreases m - n,
{
    if n < m {
        lemma_packages_among_none(items, n, m - 1);
    }
}

fn text_json(s: &String) -> (r: Json)
    ensures
        r.text() == Some(s@),
{
    Json::Text(s.clone())
}

fn optional_json(o: &Option<String>) -> (r: Json)
    ensures
        match o {
            Some(s) => r.text() == Some(s@),
            None => r is Null,
        },
{
    match o {
        Some(s) => Json::Text(s.clone()),
        None => Json::Null,
    }
}

/// The document that describes a package: reading it gives the package back.
pub fn package_to_json(p: &Package) -> (doc: Json)
    ensures
        package_of(doc) == Some(p@),
{
    let mut entries: Vec<(String, Json)> = Vec::new();
    entries.push((copy_str("name"), text_json(&p.name)));
    entries.push((copy_str("version"), text_json(&p.version)));
    entries.push((copy_str("manager"), text_json(&p.manager)));
    entries.push((copy_str("description"), optional_json(&p.description)));
    entries.push((copy_str("homepage"), optional_json(&p.homepage)));
    entries.push((copy_str("license"), optional_json(&p.license)));
    entries.push((copy_str("installed_path"), optional_json(&p.installed_path)));
    entries.push(
        (
            copy_str("size"),
            match p.size {
                Some(n) => Json::Number(JsonNumber::PosInt(n)),
                None => Json::Null,
            },
        ),
    );
    entries.push((copy_str("outdated"), Json::Bool(p.outdated)));
    entries.push((copy_str("latest_version"), optional_json(&p.latest_version)));
    proof {
        reveal_strlit("name");
        reveal_strlit("version");
        reveal_strlit("manager");
        reveal_strlit("description");
        reveal_strlit("homepage");
        reveal_strlit("license");
        reveal_strlit("installed_path");
        reveal_strlit("size");
        reveal_strlit("outdated");
        reveal_strlit("latest_version");
        let e = entries@;
        assert(e[0].0@.len() == 4 && e[0].0@[0] == 'n');
        assert(e[1].0@.len() == 7 && e[1].0@[0] == 'v');
        assert(e[2].0@.len() == 7 && e[2].0@[0] == 'm');
        assert(e[3].0@.len() == 11);
        assert(e[4].0@.len() == 8 && e[4].0@[0] == 'h');
        assert(e[5].0@.len() == 7 && e[5].0@[0] == 'l');
        assert(e[6].0@.len() == 14 && e[6].0@[0] == 'i');
        assert(e[7].0@.len() == 4 && e[7].0@[0] == 's');
        assert(e[8].0@.len() == 8 && e[8].0@[0] == 'o');
        assert(e[9].0@.len() == 14 && e[9].0@[0] == 'l');
        lemma_entry_at(e, 0);
        lemma_entry_at(e, 1);
        lemma_entry_at(e, 2);
        lemma_entry_at(e, 3);
        lemma_entry_at(e, 4);
        lemma_entry_at(e, 5);
        lemma_entry_at(e, 6);
        lemma_entry_at(e, 7);
        lemma_entry_at(e, 8);
        lemma_entry_at(e, 9);
    }
    Json::Object(entries)
}

/// Where no earlier entry has the key of the entry at `i`, that key is
/// found at `i`.
pub proof fn lemma_entry_at(entries: Seq<(String, Json)>, i: int)
    requires
        0 <= i < entries.len(),
        forall|j: int| 0 <= j < i ==> (#[trigger] entries[j]).0@ != entries[i].0@,
    ensures
        entry_index(entries, entries[i].0@) == Some(i),
    decreases i,
{
    if i > 0 {
        let rest = entries.skip(1);
        assert(rest[i - 1] == entries[i]);
        assert forall|j: int| 0 <= j < i - 1 implies (#[trigger] rest[j]).0@ != rest[i - 1].0@ by {
            assert(rest[j] == entries[j + 1]);
        }
        lemma_entry_at(rest, i - 1);
    }
}

/// The document that describes a list of packages: reading it gives the
/// list back.
pub fn packages_to_json(list: &Vec<Package>) -> (doc: Json)
    ensures
        packages_of(doc) == Some(package_views(list@)),
{
    let mut items: Vec<Json> = Vec::new();
    let mut i: usize = 0;
    assert(package_views(list@).take(0) =~= Seq::<PackageView>::empty());
    while i < list.len()
        invariant
            i <= list.len(),
            items.len() == i,
            packages_among(items@, i as int) == Some(package_views(list@).take(i as int)),
        decreases list.len() - i,
    {
        let ghost before = items@;
        let doc = package_to_json(&list[i]);
        items.push(doc);
        proof {
            lemma_packages_among_prefix(before, items@, i as int);
            assert(package_views(list@).take(i + 1) =~= package_views(list@).take(i as int).push(
                list@[i as int]@,
            ));
        }
        i = i + 1;
    }
    assert(package_views(list@).take(list.len() as int) =~= package_views(list@));
    Json::Array(items)
}

/// What the first `n` items describe depends on those items alone.
pub proof fn lemma_packages_among_prefix(a: Seq<Json>, b: Seq<Json>, n: int)
    requires
        0 <= n <= a.len(),
        n <= b.len(),
        forall|k: int| 0 <= k < n ==> a[k] == b[k],
    ensures
        packages_among(a, n) == packages_among(b, n),
    decreases n,
{
    if n > 0 {
        lemma_packages_among_prefix(a, b, n - 1);
    }
}

} // verus!
