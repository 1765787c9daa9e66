use boxy::cache::{
    is_entry_name, join_path, split_entry, Cache, CacheConfig, CacheEntry, CacheFile, CACHE_TTL,
};
use boxy::codec::{package_from_json, package_to_json, packages_from_json, packages_to_json};
use boxy::error::BoxyError;
use boxy::json::{Json, JsonNumber};
use boxy::package::{same_packages, Package};

fn cache_with(ttl: u64) -> Cache {
    Cache::new_with_config(CacheConfig { cache_dir: Some("/tmp/boxy-cache".to_string()), ttl })
        .unwrap()
}

fn jq() -> Package {
    Package::bare("jq".to_string(), "1.7".to_string(), "brew".to_string())
}

fn names(doc: &Json) -> Vec<String> {
    doc.as_array()
        .unwrap()
        .iter()
        .map(|item| item.as_str().unwrap().to_string())
        .collect()
}

fn texts(list: &[&str]) -> Json {
    Json::Array(list.iter().map(|s| Json::Text(s.to_string())).collect())
}

#[test]
fn default_config_has_an_hour() {
    let config = CacheConfig::default();
    assert!(config.cache_dir.is_none());
    assert_eq!(config.ttl, 3600);
    assert_eq!(CACHE_TTL, 3600);
    let cache = Cache::new().unwrap();
    assert_eq!(cache.ttl(), 3600);
    assert!(cache.cache_dir().ends_with("boxy"));
}

#[test]
fn without_a_directory_there_is_no_cache() {
    let r = Cache::with_base(CacheConfig { cache_dir: None, ttl: 1 }, None);
    match r {
        Err(BoxyError::CacheError { message }) => assert_eq!(message, "无法获取缓存目录"),
        _ => panic!("expected a cache error"),
    }
    let c = Cache::with_base(CacheConfig { cache_dir: None, ttl: 7 }, Some("/home/a/.cache".into()))
        .unwrap();
    assert_eq!(c.cache_dir(), "/home/a/.cache/boxy");
    assert_eq!(c.ttl(), 7);
}

#[test]
fn manager_path_is_the_json_file_of_the_key() {
    let cache = cache_with(10);
    assert_eq!(cache.manager_path("npm"), "/tmp/boxy-cache/npm.json");
    assert_eq!(cache.manager_path("npm-local-42"), "/tmp/boxy-cache/npm-local-42.json");
    assert_eq!(join_path("/a/", "b"), "/a/b");
    assert_eq!(join_path("/a", "/b"), "/b");
    assert_eq!(join_path("", "b"), "b");
    assert_eq!(join_path("/a", ""), "/a/");
    assert_eq!(
        std::path::Path::new("/a").join("b.json").to_string_lossy(),
        join_path("/a", "b.json")
    );
}

#[test]
fn entry_is_fresh_up_to_the_ttl() {
    let cache = cache_with(3600);
    assert!(cache.is_fresh(1000, 1000));
    assert!(cache.is_fresh(1000, 4600));
    assert!(!cache.is_fresh(1000, 4601));
    assert!(cache.is_fresh(1000, 0));
    assert!(!cache.is_fresh(i64::MIN, i64::MAX));
    let zero = cache_with(0);
    assert!(zero.is_fresh(5, 5));
    assert!(!zero.is_fresh(5, 6));
}

fn cache_in(dir: &str) -> Cache {
    Cache::new_with_config(CacheConfig { cache_dir: Some(dir.to_string()), ttl: CACHE_TTL })
        .unwrap()
}

#[test]
fn test_cache_set_get() {
    let cache = cache_in("/tmp/boxy-tests/cache");
    assert_eq!(cache.manager_path("npm"), "/tmp/boxy-tests/cache/npm.json");

    let data = vec!["package1", "package2"];

    let content = Cache::set(texts(&data)).unwrap();
    let result = cache.get(Some(content.as_str())).unwrap();

    assert!(result.is_some());
    assert_eq!(names(&result.unwrap()), data);
}

#[test]
fn test_cache_miss() {
    let cache = cache_in("/tmp/boxy-tests/cache");
    assert_eq!(cache.manager_path("nonexistent"), "/tmp/boxy-tests/cache/nonexistent.json");

    // There is no file for the key: the read sees no content.
    let result = cache.get(None).unwrap();
    assert!(result.is_none());
}

#[test]
fn test_cache_invalidate() {
    let cache = cache_in("/tmp/boxy-tests/cache");
    assert_eq!(cache.manager_path("npm"), "/tmp/boxy-tests/cache/npm.json");

    let content = Cache::set(texts(&["package1"])).unwrap();
    assert!(cache.get(Some(content.as_str())).unwrap().is_some());
    // After the entry was invalidated its file is gone.
    let result = cache.get(None).unwrap();
    assert!(result.is_none());
}

#[test]
fn set_then_get_returns_the_packages_until_the_ttl_has_passed() {
    let cache = cache_with(3600);
    let content = Cache::encode_packages(&vec![jq()], 1_000).unwrap();
    let got = cache.decode_packages(&content, 1_000).unwrap().unwrap();
    assert_eq!(got.len(), 1);
    assert_eq!(got[0].name, "jq");
    assert_eq!(got[0].version, "1.7");
    assert_eq!(got[0].manager, "brew");
    assert!(cache.decode_packages(&content, 4_600).unwrap().is_some());
    assert!(cache.decode_packages(&content, 4_601).unwrap().is_none());
}

#[test]
fn cache_file_is_a_json_object_with_data_and_cached_at() {
    let content = Cache::encode(texts(&["a"]), 12).unwrap();
    let value: serde_json::Value = serde_json::from_str(&content).unwrap();
    assert_eq!(value["cached_at"], 12);
    assert_eq!(value["data"][0], "a");
    assert_eq!(value.as_object().unwrap().len(), 2);
    let before_epoch = Cache::encode(Json::Null, -5).unwrap();
    let value: serde_json::Value = serde_json::from_str(&before_epoch).unwrap();
    assert_eq!(value["cached_at"], -5);
}

#[test]
fn broken_content_is_an_error_and_never_a_miss() {
    let cache = cache_with(3600);
    match cache.decode("{not json", 0) {
        Err(BoxyError::JsonError { message }) => assert!(message.starts_with("解析缓存失败: ")),
        _ => panic!("expected a JSON error"),
    }
    for content in ["[]", "{}", "{\"data\": 1}", "{\"cached_at\": 1}", "{\"data\": 1, \"cached_at\": \"x\"}"] {
        match cache.decode(content, 0) {
            Err(BoxyError::JsonError { message }) => assert_eq!(message, "解析缓存失败: 不是缓存条目"),
            _ => panic!("expected a JSON error for {}", content),
        }
    }
    match cache.decode_packages("{\"data\": 1, \"cached_at\": 0}", 0) {
        Err(BoxyError::JsonError { message }) => assert_eq!(message, "解析缓存失败: 不是包列表"),
        _ => panic!("expected a JSON error"),
    }
    // The payload is read before the age is looked at.
    assert!(cache.decode_packages("{\"data\": 1, \"cached_at\": 0}", 4000).is_err());
    assert!(cache.decode_packages("{\"data\": [], \"cached_at\": 0}", 4000).unwrap().is_none());
    assert!(cache.decode("{\"data\": 1, \"cached_at\": 0}", 4000).unwrap().is_none());
}

#[test]
fn split_entry_takes_payload_and_time() {
    let doc = Json::Object(vec![
        ("cached_at".to_string(), Json::Number(JsonNumber::PosInt(9))),
        ("data".to_string(), Json::Bool(true)),
    ]);
    let CacheEntry { data, cached_at } = split_entry(doc).unwrap();
    assert_eq!(cached_at, 9);
    assert_eq!(data.as_bool(), Some(true));
    assert!(split_entry(Json::Null).is_none());
}

#[test]
fn test_package_serialization() {
    let package = Package {
        name: "test-pkg".to_string(),
        version: "1.0.0".to_string(),
        manager: "npm".to_string(),
        description: Some("Test package".to_string()),
        homepage: Some("https://example.com".to_string()),
        license: Some("MIT".to_string()),
        installed_path: Some("/usr/local/lib/node_modules".to_string()),
        size: Some(1024),
        outdated: false,
        latest_version: Some("1.0.0".to_string()),
    };

    let json = Cache::encode(package_to_json(&package), 0).unwrap();
    let cache = cache_with(10);
    let deserialized = package_from_json(&cache.decode(&json, 0).unwrap().unwrap()).unwrap();

    assert_eq!(deserialized.name, package.name);
    assert_eq!(deserialized.version, package.version);
    assert_eq!(deserialized.manager, package.manager);
    assert_eq!(deserialized.description, package.description);
    assert_eq!(deserialized.homepage, package.homepage);
    assert_eq!(deserialized.license, package.license);
    assert_eq!(deserialized.installed_path, package.installed_path);
    assert_eq!(deserialized.size, Some(1024));
    assert!(!deserialized.outdated);
    assert_eq!(deserialized.latest_version, package.latest_version);
}

#[test]
fn package_documents_are_checked() {
    let list = packages_to_json(&vec![jq(), jq()]);
    assert_eq!(packages_from_json(&list).unwrap().len(), 2);
    assert!(packages_from_json(&Json::Null).is_none());
    assert!(package_from_json(&Json::Array(vec![])).is_none());
    let no_name = Json::Object(vec![
        ("version".to_string(), Json::Text("1".to_string())),
        ("manager".to_string(), Json::Text("npm".to_string())),
        ("outdated".to_string(), Json::Bool(false)),
    ]);
    assert!(package_from_json(&no_name).is_none());
    let minimal = Json::Object(vec![
        ("name".to_string(), Json::Text("a".to_string())),
        ("version".to_string(), Json::Text("1".to_string())),
        ("manager".to_string(), Json::Text("npm".to_string())),
        ("outdated".to_string(), Json::Bool(true)),
        ("extra".to_string(), Json::Null),
    ]);
    let p = package_from_json(&minimal).unwrap();
    assert!(p.outdated);
    assert!(p.description.is_none() && p.size.is_none());
    let bad_size = Json::Object(vec![
        ("name".to_string(), Json::Text("a".to_string())),
        ("version".to_string(), Json::Text("1".to_string())),
        ("manager".to_string(), Json::Text("npm".to_string())),
        ("outdated".to_string(), Json::Bool(true)),
        ("size".to_string(), Json::Number(JsonNumber::NegInt(-1))),
    ]);
    assert!(package_from_json(&bad_size).is_none());
    assert!(packages_from_json(&Json::Array(vec![bad_size])).is_none());
}

#[test]
fn sweep_removes_old_json_files_only() {
    let cache = cache_with(10);
    let files = vec![
        CacheFile { name: "npm.json".to_string(), elapsed: 11 },
        CacheFile { name: "pip.json".to_string(), elapsed: 10 },
        CacheFile { name: "notes.txt".to_string(), elapsed: 99 },
        CacheFile { name: ".json".to_string(), elapsed: 99 },
        CacheFile { name: "brew.json".to_string(), elapsed: 99 },
    ];
    assert_eq!(cache.clean(&files, 10), vec!["npm.json", "brew.json"]);
    assert_eq!(cache.clean(&files, 100).len(), 0);
    for name in ["a.json", ".json", "json", "a.JSON", "a.json.bak", "..json", "a.b.json"] {
        let expected = std::path::Path::new(name).extension().map(|e| e == "json").unwrap_or(false);
        assert_eq!(is_entry_name(name), expected, "{}", name);
    }
}

#[test]
fn packages_are_compared_by_what_they_hold() {
    let a = jq();
    let mut b = jq();
    assert!(a.same(&b));
    assert!(same_packages(&vec![jq(), jq()], &vec![jq(), jq()]));
    assert!(!same_packages(&vec![jq()], &vec![jq(), jq()]));
    b.latest_version = Some("1.8".to_string());
    assert!(!a.same(&b));
    assert!(!same_packages(&vec![jq(), a], &vec![jq(), b]));
    let mut c = jq();
    c.size = Some(1);
    assert!(!jq().same(&c));
    c.size = None;
    c.outdated = true;
    assert!(!jq().same(&c));
    assert!(jq().copy().same(&jq()));
}
