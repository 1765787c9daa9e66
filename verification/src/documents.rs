//! Reading packages out of the JSON documents that managers print.

use vstd::prelude::*;
use crate::adapter::{opt_package, owned, str_view};
use crate::codec::{optional_text, optional_text_at, required_text, text_at};
use crate::error::BoxyError;
use crate::json::{parsed, read_document, Json};
use crate::package::{bare_package, package_views, Package, PackageView};
use crate::text::{chars_of, copy_str, push_str, string_of, trim, trimmed};

verus! {

/// How the message of a failure to read the output `what` of `manager`
/// starts.
pub open spec fn failure_prefix(manager: Seq<char>, what: Seq<char>) -> Seq<char> {
    "解析 "@ + manager + " "@ + what + " 输出失败: "@
}

/// What is said of an output that is JSON but not of the expected form.
pub open spec fn wrong_form() -> Seq<char> {
    "结构不符"@
}

/// Whether `r` is what reading `output` comes to, where `found` says which
/// packages a document holds: the packages, or a `JsonError` whose message
/// starts with `prefix` and goes on with the reader's message, or with
/// `wrong_form` where the document holds no packages.
pub open spec fn decoded(
    r: Result<Vec<Package>, BoxyError>,
    output: Seq<char>,
    prefix: Seq<char>,
    found: spec_fn(Json) -> Option<Seq<PackageView>>,
) -> bool {
    match parsed(output) {
        Err(m) => r matches Err(BoxyError::JsonError { message }) && message@ == prefix + m,
        Ok(doc) => match found(doc) {
            Some(list) => r matches Ok(v) && package_views(v@) == list,
            None => r matches Err(BoxyError::JsonError { message }) && message@ == prefix
                + wrong_form(),
        },
    }
}

/// Whether `doc` is what reading `output` gives.
pub open spec fn parsed_is(output: Seq<char>, doc: Json) -> bool {
    parsed(output) == Ok::<Json, Seq<char>>(doc)
}

/// The same for a single package.
pub open spec fn decoded_one(
    r: Result<Package, BoxyError>,
    output: Seq<char>,
    prefix: Seq<char>,
    found: spec_fn(Json) -> Option<PackageView>,
) -> bool {
    match parsed(output) {
        Err(m) => r matches Err(BoxyError::JsonError { message }) && message@ == prefix + m,
        Ok(doc) => match found(doc) {
            Some(p) => r matches Ok(v) && v@ == p,
            None => r matches Err(BoxyError::JsonError { message }) && message@ == prefix
                + wrong_form(),
        },
    }
}

fn prefix_for(manager: &str, what: &str) -> (r: Vec<char>)
    ensures
        r@ == failure_prefix(manager@, what@),
{
    let mut out = chars_of("解析 ");
    push_str(&mut out, manager);
    push_str(&mut out, " ");
    push_str(&mut out, what);
    push_str(&mut out, " 输出失败: ");
    out
}

/// The document that the output `what` of `manager` holds, or the failure
/// to read it.
pub fn read_output(output: &str, manager: &str, what: &str) -> (r: Result<Json, BoxyError>)
    ensures
        match parsed(output@) {
            Ok(doc) => r matches Ok(d) && d == doc,
            Err(m) => r matches Err(BoxyError::JsonError { message }) && message@
                == failure_prefix(manager@, what@) + m,
        },
{
    match read_document(output) {
        Ok(doc) => Ok(doc),
        Err(m) => {
            let mut text = prefix_for(manager, what);
            push_str(&mut text, m.as_str());
            Err(BoxyError::JsonError { message: string_of(&text) })
        },
    }
}

/// The failure for an output `what` of `manager` that is JSON but not of
/// the expected form.
pub fn form_error(manager: &str, what: &str) -> (e: BoxyError)
    ensures
        e matches BoxyError::JsonError { message } && message@ == failure_prefix(manager@, what@)
            + wrong_form(),
{
    let mut text = prefix_for(manager, what);
    push_str(&mut text, "结构不符");
    BoxyError::JsonError { message: string_of(&text) }
}

/// The package that an item of a search result describes: one with a name
/// and a version, and a description where there is one.
pub open spec fn search_item(item: Json, manager: Seq<char>) -> Option<PackageView> {
    match (text_at(item, "name"@), text_at(item, "version"@)) {
        (Some(name), Some(version)) => Some(
            PackageView {
                description: text_at(item, "description"@),
                ..bare_package(name, version, manager)
            },
        ),
        _ => None,
    }
}

/// The item itself, or what stands under `package` in it.
pub open spec fn unwrapped(item: Json) -> Json {
    match item.field("package"@) {
        Some(inner) => inner,
        None => item,
    }
}

/// The packages that the first `n` of `items` describe; items that
/// describe none are passed over. Where `nested`, the description may
/// stand under `package`.
pub open spec fn search_items(items: Seq<Json>, manager: Seq<char>, nested: bool, n: int) -> Seq<
    PackageView,
>
    decreases n,
{
    if n <= 0 {
        Seq::empty()
    } else {
        let item = if nested {
            unwrapped(items[n - 1])
        } else {
            items[n - 1]
        };
        match search_item(item, manager) {
            Some(p) => search_items(items, manager, nested, n - 1).push(p),
            None => search_items(items, manager, nested, n - 1),
        }
    }
}

/// The package that an item of a search result describes.
pub fn read_search_item(item: &Json, manager: &str) -> (r: Option<Package>)
    ensures
        opt_package(r) == search_item(*item, manager@),
{
    match (required_text(item, "name"), required_text(item, "version")) {
        (Some(name), Some(version)) => {
            let mut p = Package::bare(name, version, copy_str(manager));
            p.description = required_text(item, "description");
            Some(p)
        },
        _ => None,
    }
}

/// The packages that the items of a search result describe.
pub fn read_search_items(items: &Vec<Json>, manager: &str, nested: bool) -> (r: Vec<Package>)
    ensures
        package_views(r@) == search_items(items@, manager@, nested, items.len() as int),
{
    let mut out: Vec<Package> = Vec::new();
    let mut i: usize = 0;
    assert(package_views(out@) =~= search_items(items@, manager@, nested, 0));
    while i < items.len()
        invariant
            i <= items.len(),
            package_views(out@) == search_items(items@, manager@, nested, i as int),
        decreases items.len() - i,
    {
        let item = &items[i];
        let found = if nested {
            match item.get("package") {
                Some(inner) => read_search_item(inner, manager),
                None => read_search_item(item, manager),
            }
        } else {
            read_search_item(item, manager)
        };
        match found {
            Some(p) => {
                let ghost before = package_views(out@);
                out.push(p);
                assert(package_views(out@) =~= before.push(p@));
            },
            None => {},
        }
        i = i + 1;
    }
    out
}

/// The packages of a search result that is an array of items; none where
/// the document is something else.
pub open spec fn flat_search(doc: Json, manager: Seq<char>) -> Seq<PackageView> {
    match doc.items() {
        Some(items) => search_items(items, manager, false, items.len() as int),
        None => Seq::empty(),
    }
}

/// The packages of a search result that is an array of items.
pub fn read_flat_search(doc: &Json, manager: &str) -> (r: Vec<Package>)
    ensures
        package_views(r@) == flat_search(*doc, manager@),
{
    match doc.as_array() {
        Some(items) => read_search_items(items, manager, false),
        None => {
            let r: Vec<Package> = Vec::new();
            assert(package_views(r@) =~= Seq::<PackageView>::empty());
            r
        },
    }
}

/// The outdated package that an entry of a map of outdated packages
/// describes: an object with the texts `current` and `latest`.
pub open spec fn outdated_item(
    name: Seq<char>,
    value: Json,
    manager: Seq<char>,
    installed_path: Option<Seq<char>>,
) -> Option<PackageView> {
    match (text_at(value, "current"@), text_at(value, "latest"@)) {
        (Some(current), Some(latest)) => Some(
            PackageView {
                installed_path,
                outdated: true,
                latest_version: Some(latest),
                ..bare_package(name, current, manager)
            },
        ),
        _ => None,
    }
}

/// The outdated packages that the first `n` entries describe; none where
/// one of them describes no package.
pub open spec fn outdated_items(
    entries: Seq<(String, Json)>,
    manager: Seq<char>,
    installed_path: Option<Seq<char>>,
    n: int,
) -> Option<Seq<PackageView>>
    decreases n,
{
    if n <= 0 {
        Some(Seq::empty())
    } else {
        match (
            outdated_items(entries, manager, installed_path, n - 1),
            outdated_item(entries[n - 1].0@, entries[n - 1].1, manager, installed_path),
        ) {
            (Some(before), Some(p)) => Some(before.push(p)),
            _ => None,
        }
    }
}

/// The outdated packages that a document describes: an object with one
/// entry per package.
pub open spec fn outdated_map(doc: Json, manager: Seq<char>, installed_path: Option<Seq<char>>)
    -> Option<Seq<PackageView>> {
    match doc {
        Json::Object(entries) => outdated_items(
            entries@,
            manager,
            installed_path,
            entries@.len() as int,
        ),
        _ => None,
    }
}

/// Where the first `n` entries describe no list, no longer prefix does.
pub proof fn lemma_outdated_items_none(
    entries: Seq<(String, Json)>,
    manager: Seq<char>,
    installed_path: Option<Seq<char>>,
    n: int,
    m: int,
)
    requires
        0 <= n <= m,
        outdated_items(entries, manager, installed_path, n) is None,
    ensures
        outdated_items(entries, manager, installed_path, m) is None,
    decreases m - n,
{
    if n < m {
        lemma_outdated_items_none(entries, manager, installed_path, n, m - 1);
    }
}

/// The outdated packages that a document describes.
pub fn read_outdated_map(doc: &Json, manager: &str, installed_path: Option<&str>) -> (r: Option<
    Vec<Package>,
>)
    ensures
        match outdated_map(*doc, manager@, str_view(installed_path)) {
            Some(list) => r matches Some(v) && package_views(v@) == list,
            None => r is None,
        },
{
    match doc.as_object() {
        None => None,
        Some(entries) => {
            let mut out: Vec<Package> = Vec::new();
            let mut i: usize = 0;
            assert(package_views(out@) =~= Seq::<PackageView>::empty());
            while i < entries.len()
                invariant
                    i <= entries.len(),
                    *doc == Json::Object(*entries),
                    outdated_items(entries@, manager@, str_view(installed_path), i as int)
                        == Some(package_views(out@)),
                decreases entries.len() - i,
            {
                let value = &entries[i].1;
                match (required_text(value, "current"), required_text(value, "latest")) {
                    (Some(current), Some(latest)) => {
                        let mut p = Package::bare(
                            entries[i].0.clone(),
                            current,
                            copy_str(manager),
                        );
                        p.installed_path = owned(installed_path);
                        p.outdated = true;
                        p.latest_version = Some(latest);
                        let ghost before = package_views(out@);
                        out.push(p);
                        assert(package_views(out@) =~= before.push(p@));
                    },
                    _ => {
                        proof {
                            lemma_outdated_items_none(
                                entries@,
                                manager@,
                                str_view(installed_path),
                                i + 1,
                                entries@.len() as int,
                            );
                        }
                        return None;
                    },
                }
                i = i + 1;
            }
            Some(out)
        },
    }
}

/// The outdated packages that an output describes: none for an output
/// that is blank, else those of the map that it holds.
pub open spec fn outdated_found(
    r: Result<Vec<Package>, BoxyError>,
    output: Seq<char>,
    manager: Seq<char>,
    installed_path: Option<Seq<char>>,
) -> bool {
    if trim(output).len() == 0 {
        r matches Ok(v) && v@.len() == 0
    } else {
        decoded(
            r,
            output,
            failure_prefix(manager, "outdated"@),
            |doc: Json| outdated_map(doc, manager, installed_path),
        )
    }
}

/// The outdated packages that the output of `outdated --json` describes.
pub fn read_outdated_output(output: &str, manager: &str, installed_path: Option<&str>) -> (r:
    Result<Vec<Package>, BoxyError>)
    ensures
        outdated_found(r, output@, manager@, str_view(installed_path)),
{
    if trimmed(&chars_of(output)).len() == 0 {
        return Ok(Vec::new());
    }
    match read_output(output, manager, "outdated") {
        Err(e) => Err(e),
        Ok(doc) => match read_outdated_map(&doc, manager, installed_path) {
            Some(v) => Ok(v),
            None => Err(form_error(manager, "outdated")),
        },
    }
}

/// The package that the details of a registry describe: an object with the
/// texts `name`, `version` and `description`, and optionally the texts
/// `homepage` and `license`. The version is also the latest one.
pub open spec fn registry_info(doc: Json, manager: Seq<char>, installed_path: Option<Seq<char>>)
    -> Option<PackageView> {
    match (
        doc is Object,
        text_at(doc, "name"@),
        text_at(doc, "version"@),
        text_at(doc, "description"@),
        optional_text_at(doc, "homepage"@),
        optional_text_at(doc, "license"@),
    ) {
        (true, Some(name), Some(version), Some(description), Some(homepage), Some(license)) => Some(
            PackageView {
                description: Some(description),
                homepage,
                license,
                installed_path,
                latest_version: Some(version),
                ..bare_package(name, version, manager)
            },
        ),
        _ => None,
    }
}

/// The package that the details of a registry describe.
pub fn read_registry_info(doc: &Json, manager: &str, installed_path: Option<&str>) -> (r: Option<
    Package,
>)
    ensures
        opt_package(r) == registry_info(*doc, manager@, str_view(installed_path)),
{
    match doc {
        Json::Object(_) => {},
        _ => {
            return None;
        },
    }
    match (
        required_text(doc, "name"),
        required_text(doc, "version"),
        required_text(doc, "description"),
        optional_text(doc, "homepage"),
        optional_text(doc, "license"),
    ) {
        (Some(name), Some(version), Some(description), Some(homepage), Some(license)) => {
            let mut p = Package::bare(name, version.clone(), copy_str(manager));
            p.description = Some(description);
            p.homepage = homepage;
            p.license = license;
            p.installed_path = owned(installed_path);
            p.latest_version = Some(version);
            Some(p)
        },
        _ => None,
    }
}

/// The package that the output of `info --json` describes.
pub fn read_info_output(output: &str, manager: &str, installed_path: Option<&str>) -> (r: Result<
    Package,
    BoxyError,
>)
    ensures
        decoded_one(
            r,
            output@,
            failure_prefix(manager@, "info"@),
            |doc: Json| registry_info(doc, manager@, str_view(installed_path)),
        ),
{
    match read_output(output, manager, "info") {
        Err(e) => Err(e),
        Ok(doc) => match read_registry_info(&doc, manager, installed_path) {
            Some(p) => Ok(p),
            None => Err(form_error(manager, "info")),
        },
    }
}

} // verus!
