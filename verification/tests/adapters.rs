use boxy::adapter::{
    build_cache_key, command_outcome, field_value, first_line_path, install_target,
    key_for_scope, outdated_from_info, with_flag, Run,
};
use boxy::cache::Cache;
use boxy::error::BoxyError;
use boxy::json::Json;
use boxy::manager::{all_managers, has_capability, supports_global, PackageManager};
use boxy::managers::brew::BrewManager;
use boxy::managers::bun::BunManager;
use boxy::managers::cargo::CargoManager;
use boxy::managers::mas::MasManager;
use boxy::managers::npm::{NpmManager, NpmScope};
use boxy::managers::pip::PipManager;
use boxy::managers::pipx::PipxManager;
use boxy::managers::pnpm::PnpmManager;
use boxy::managers::uv::UvManager;
use boxy::managers::yarn::YarnManager;
use boxy::package::{Capability, Package};
use boxy::registry::create_manager;
use boxy::scope::{
    desktop_scope, is_openable, requested_scope, resolve_scope, restrict_scope, ScopeConfig,
    ScopeError,
};
use boxy::sizes::{
    apply_sizes, bytes_of, candidates_for, chunk_bounds, parse_number, read_du_line, read_sizes,
};
use std::sync::Arc;

fn cache() -> Arc<Cache> {
    Arc::new(Cache::new().unwrap())
}

fn strings(list: &[&str]) -> Vec<String> {
    list.iter().map(|s| s.to_string()).collect()
}

fn brief(list: &[Package]) -> Vec<(String, String)> {
    list.iter().map(|p| (p.name.clone(), p.version.clone())).collect()
}

fn pairs(list: &[(&str, &str)]) -> Vec<(String, String)> {
    list.iter().map(|(a, b)| (a.to_string(), b.to_string())).collect()
}

#[test]
fn test_create_all_managers() {
    for name in all_managers() {
        let manager = create_manager(&name, cache(), false, None);
        assert!(manager.is_some(), "应该能创建 {} 管理器", name);
        if let Some(m) = manager {
            assert_eq!(m.name(), name);
        }
    }
    assert!(create_manager("apt", cache(), false, None).is_none());
    assert!(create_manager("", cache(), true, None).is_none());
}

#[test]
fn test_manager_capabilities() {
    let manager = create_manager("npm", cache(), false, None);
    if let Some(m) = manager {
        let caps = m.capabilities();
        assert!(!caps.is_empty(), "npm 应该至少有一个能力");
        assert!(m.supports(Capability::QueryDependencies));
        assert!(!m.supports(Capability::BatchInstall));
    }
    let mas = MasManager::new(cache());
    assert!(mas.supports(Capability::SearchRemote));
    assert!(!mas.supports(Capability::VersionSelection));
    assert!(!has_capability(&vec![], Capability::ListInstalled));
}

#[test]
fn cache_keys_tell_scopes_apart() {
    assert_eq!(BrewManager::new(cache()).cache_key(), "brew");
    assert_eq!(PipManager::new(cache(), true).cache_key(), "pip");
    assert_eq!(NpmManager::new(cache(), NpmScope::Global, None).cache_key(), "npm-global");
    assert_eq!(NpmManager::new(cache(), NpmScope::Local, None).cache_key_value(), "npm-local");
    assert_eq!(PnpmManager::new(cache(), true, None).cache_key(), "pnpm-global");
    assert_eq!(YarnManager::new(cache(), false, None).cache_key(), "yarn-local");
    assert_eq!(BunManager::new(cache(), false, None).cache_key(), "bun-local");
    let here = BunManager::new(cache(), false, Some("/work/a".to_string()));
    let there = BunManager::new(cache(), false, Some("/work/b".to_string()));
    let again = BunManager::new(cache(), false, Some("/work/a".to_string()));
    assert!(here.cache_key().starts_with("bun-local-"));
    assert!(here.cache_key()["bun-local-".len()..].parse::<u64>().is_ok());
    assert_ne!(here.cache_key(), there.cache_key());
    assert_eq!(here.cache_key(), again.cache_key());
    assert_eq!(key_for_scope("npm", true, Some(42)), "npm-global-42");
    assert_eq!(key_for_scope("npm", false, None), "npm-local");
    assert_eq!(build_cache_key("yarn", true, &None), "yarn-global");
    assert!(supports_global("npm") && supports_global("pnpm"));
    assert!(supports_global("yarn") && supports_global("bun"));
    assert!(!supports_global("pip") && !supports_global("brew") && !supports_global(""));
}

#[test]
fn command_lines() {
    assert_eq!(BrewManager::list_args(), strings(&["list", "--versions"]));
    assert_eq!(BrewManager::install_args("jq", Some("1.7")), strings(&["install", "jq@1.7"]));
    assert_eq!(BrewManager::install_args("jq", None), strings(&["install", "jq"]));
    assert_eq!(BrewManager::uninstall_args("jq", true), strings(&["uninstall", "--force", "jq"]));
    assert_eq!(
        BrewManager::uninstall_cask_args("jq", false),
        strings(&["uninstall", "--cask", "jq"])
    );
    assert_eq!(BrewManager::info_cask_args("x"), strings(&["info", "--json=v2", "--cask", "x"]));
    assert_eq!(
        NpmManager::install_args("a", Some("2"), true),
        strings(&["install", "--force", "a@2"])
    );
    assert_eq!(NpmManager::uninstall_args("a", true), strings(&["uninstall", "a", "-f"]));
    assert_eq!(
        NpmManager::dependencies_args("a"),
        strings(&["view", "a", "dependencies", "--json"])
    );
    assert_eq!(PnpmManager::list_args(), strings(&["list", "--json", "--depth=0"]));
    assert_eq!(YarnManager::install_args("a", None), strings(&["add", "a"]));
    assert_eq!(BunManager::uninstall_args("a", true), strings(&["remove", "a", "--force"]));
    assert_eq!(PipManager::install_args("a", Some("1")), strings(&["install", "a==1"]));
    assert_eq!(PipManager::upgrade_args("a"), strings(&["install", "--upgrade", "a"]));
    assert_eq!(PipManager::uninstall_args("a", true), strings(&["uninstall", "--yes", "a"]));
    assert_eq!(PipxManager::uninstall_args("a", false), strings(&["uninstall", "a"]));
    assert_eq!(UvManager::outdated_args(), strings(&["pip", "list", "--outdated"]));
    assert_eq!(
        CargoManager::install_args("rg", Some("14")),
        strings(&["install", "--version", "14", "rg"])
    );
    assert_eq!(CargoManager::info_args("rg"), strings(&["search", "rg", "--limit", "1"]));
    assert_eq!(MasManager::upgrade_args("497799835"), strings(&["upgrade", "497799835"]));
    assert_eq!(install_target("a", Some("1"), "=="), "a==1");

    let npm = NpmManager::new(cache(), NpmScope::Global, None);
    assert_eq!(npm.command_line(NpmManager::list_args()), strings(&["-g", "list", "--json"]));
    assert_eq!(npm.root_args(), strings(&["root", "-g"]));
    let local = NpmManager::new(cache(), NpmScope::Local, None);
    assert_eq!(local.command_line(NpmManager::list_args()), strings(&["list", "--json"]));
    assert_eq!(local.root_args(), strings(&["root"]));
    let yarn = YarnManager::new(cache(), true, None);
    assert_eq!(yarn.command_line(YarnManager::dir_args()), strings(&["global", "dir"]));
    let pip = PipManager::new(cache(), true);
    assert_eq!(pip.program(), "pip3");
    assert_eq!(pip.command_line(PipManager::list_args()), strings(&["--global", "list"]));
    assert_eq!(PipManager::new(cache(), false).program(), "pip");
    assert_eq!(with_flag(false, "-g", strings(&["a"])), strings(&["a"]));
}

#[test]
fn command_outcomes() {
    let args = strings(&["install", "jq"]);
    assert!(matches!(command_outcome("brew", &args, Run::TimedOut), Err(BoxyError::CommandTimeout)));
    match command_outcome("brew", &args, Run::NotStarted) {
        Err(BoxyError::CommandFailed { manager, command, exit_code }) => {
            assert_eq!((manager.as_str(), command.as_str(), exit_code), ("brew", "install jq", -1));
        }
        _ => panic!("expected a failed command"),
    }
    let run = Run::Exited { success: false, code: Some(2), stdout: "x".into() };
    let e = command_outcome("brew", &args, run).unwrap_err();
    assert_eq!(e.message(), "命令执行失败: brew 'install jq' (退出码: 2)");
    let run = Run::Exited { success: false, code: None, stdout: String::new() };
    assert!(matches!(
        command_outcome("brew", &args, run),
        Err(BoxyError::CommandFailed { exit_code: -1, .. })
    ));
    let run = Run::Exited { success: true, code: Some(0), stdout: "out".into() };
    assert_eq!(command_outcome("brew", &args, run).unwrap(), "out");
}

#[test]
fn error_messages() {
    assert_eq!(BoxyError::ManagerNotFound { name: "apt".into() }.message(), "包管理器未找到: apt");
    assert_eq!(
        BoxyError::ManagerUnavailable { name: "mas".into(), reason: "x".into() }.message(),
        "包管理器不可用: mas, 原因: x"
    );
    assert_eq!(
        BoxyError::PackageNotFound { manager: "npm".into(), package: "a".into() }.message(),
        "包未找到: npm/a"
    );
    assert_eq!(
        BoxyError::CommandFailed { manager: "npm".into(), command: "i".into(), exit_code: -1 }
            .message(),
        "命令执行失败: npm 'i' (退出码: -1)"
    );
    assert_eq!(
        BoxyError::CommandFailed { manager: "n".into(), command: "i".into(), exit_code: i32::MIN }
            .message(),
        "命令执行失败: n 'i' (退出码: -2147483648)"
    );
    assert_eq!(BoxyError::CommandInterrupted.message(), "命令被中断");
    assert_eq!(BoxyError::CommandTimeout.message(), "命令超时");
    assert_eq!(BoxyError::ParseError { input: "x".into() }.message(), "解析失败: x");
    assert_eq!(BoxyError::JsonError { message: "x".into() }.message(), "JSON解析失败: x");
    assert_eq!(BoxyError::CacheError { message: "x".into() }.message(), "缓存错误: x");
    assert_eq!(BoxyError::Io { message: "x".into() }.message(), "IO错误");
    assert_eq!(BoxyError::NetworkError { message: "x".into() }.message(), "网络错误: x");
    assert_eq!(BoxyError::DependencyConflict { message: "x".into() }.message(), "依赖冲突: x");
    assert_eq!(
        BoxyError::UnsupportedOperation { manager: "mas".into(), operation: "clean_cache".into() }
            .message(),
        "不支持的操作: mas clean_cache"
    );
}

#[test]
fn brew_outputs() {
    let brew = BrewManager::new(cache());
    let list = brew.parse_list_output_with_versions("jq 1.7\n\n  wget 1.21.4 1.21.3\nlonely\n");
    assert_eq!(brief(&list), pairs(&[("jq", "1.7"), ("wget", "1.21.4"), ("lonely", "")]));
    assert_eq!(list[0].manager, "brew");
    let found = brew.parse_search_output("==> Formulae\njq\n  jql  \n\n==> Casks\n");
    assert_eq!(brief(&found), pairs(&[("jq", ""), ("jql", "")]));
    let old = brew.parse_outdated_output("jq (1.6) < 1.7\nwget\n");
    assert_eq!(brief(&old), pairs(&[("jq", "1.6"), ("wget", "")]));
    assert!(old[0].outdated);
    assert_eq!(old[0].latest_version.as_deref(), Some("1.7"));
    assert_eq!(old[1].latest_version.as_deref(), Some(""));
}

#[test]
fn brew_info_documents() {
    let brew = BrewManager::new(cache());
    let formula = r#"{"formulae":[{"name":"jq","versions":{"stable":"1.7"},"desc":"JSON processor",
        "homepage":"https://jqlang.github.io","license":["MIT","ICU",3],
        "installed":[{"installed_size":3}]}],"casks":[]}"#;
    let p = brew.parse_json_info(formula, "other").unwrap();
    assert_eq!((p.name.as_str(), p.version.as_str(), p.manager.as_str()), ("jq", "1.7", "brew"));
    assert_eq!(p.description.as_deref(), Some("JSON processor"));
    assert_eq!(p.license.as_deref(), Some("MIT, ICU"));
    assert_eq!(p.size, Some(3072));
    assert!(!p.outdated && p.latest_version.is_none());
    let cask = r#"{"formulae":[],"casks":[{"token":"iterm2","version":"3.5","installed_size":18446744073709551615}]}"#;
    let p = brew.parse_json_info(cask, "x").unwrap();
    assert_eq!((p.name.as_str(), p.version.as_str()), ("iterm2", "3.5"));
    assert_eq!(p.size, Some(u64::MAX));
    assert!(p.license.is_none());
    let bare = brew.parse_json_info(r#"{"formulae":[{}]}"#, "given").unwrap();
    assert_eq!((bare.name.as_str(), bare.version.as_str()), ("given", ""));
    match brew.parse_json_info("{}", "x") {
        Err(BoxyError::JsonError { message }) => assert_eq!(message, "解析 brew info 输出失败"),
        _ => panic!("expected a JSON error"),
    }
    match brew.parse_json_info("nope", "x") {
        Err(BoxyError::JsonError { message }) => {
            assert!(message.starts_with("解析 brew info 输出失败: "))
        }
        _ => panic!("expected a JSON error"),
    }
    let sizes = brew
        .parse_installed_sizes(
            r#"{"formulae":[{"name":"jq","installed":[{"installed_size":2}]},{"name":"x"}],
                "casks":[{"token":"t","name":["T"],"installed_size":1},{"installed_size":1}]}"#,
        )
        .unwrap();
    assert_eq!(sizes, vec![("jq".to_string(), 2048), ("t".to_string(), 1024)]);
    assert_eq!(BrewManager::parse_license(&Json::Text("MIT".into())).as_deref(), Some("MIT"));
    assert!(BrewManager::parse_license(&Json::Array(vec![Json::Null])).is_none());
    assert!(BrewManager::parse_license(&Json::Null).is_none());
}

#[test]
fn pip_and_uv_outputs() {
    let pip = PipManager::new(cache(), false);
    let output = "Package    Version\n------------\nrequests  2.31.0\nlonely\n\nurllib3   2.0.7\n";
    assert_eq!(
        brief(&pip.parse_list_output(output)),
        pairs(&[("requests", "2.31.0"), ("urllib3", "2.0.7")])
    );
    assert!(pip.parse_list_output("only a heading\n").is_empty());
    assert!(pip.parse_list_output("").is_empty());
    let found = pip.parse_search_output("h\n-\nflask (3.0) - A simple framework\nx\n");
    assert_eq!(brief(&found), pairs(&[("flask", "3.0"), ("x", "")]));
    assert_eq!(found[0].description.as_deref(), Some("A simple framework"));
    assert!(found[1].description.is_none());
    let info = pip.parse_info_output(
        "flask",
        "Name: Flask\nVersion: 3.0.0\nSummary: A simple framework\nHome-page: https://x\nLicense: BSD\nVersion: 3.0.1\n",
    );
    assert_eq!((info.name.as_str(), info.version.as_str()), ("flask", "3.0.1"));
    assert_eq!(info.description.as_deref(), Some("A simple framework"));
    assert_eq!(info.homepage.as_deref(), Some("https://x"));
    assert_eq!(info.license.as_deref(), Some("BSD"));
    let none = pip.parse_info_output("flask", "");
    assert_eq!(none.version, "");
    assert!(none.description.is_none());
    let old = pip.parse_outdated_output("h\n-\nflask 2.0 (3.0) wheel\nshort 1\n");
    assert_eq!(brief(&old), pairs(&[("flask", "2.0")]));
    assert!(old[0].outdated);
    assert_eq!(old[0].latest_version.as_deref(), Some("3.0"));

    let uv = UvManager::new(cache(), false);
    let listed = uv.parse_list_output(output);
    assert_eq!(listed.len(), 2);
    assert_eq!(listed[0].manager, "uv");
    assert!(uv.parse_search_output("h\n-\nflask (3.0) - text\n")[0].description.is_none());
    assert_eq!(uv.parse_info_output("a", "Version: 1\n").version, "1");
    assert_eq!(uv.parse_outdated_output("h\n-\na 1 2\n")[0].latest_version.as_deref(), Some("2"));
    assert_eq!(field_value("Version:  1.2 \n", "Version:").as_deref(), Some("1.2"));
    assert!(field_value("version: 1.2", "Version:").is_none());
}

#[test]
fn pipx_outputs() {
    let pipx = PipxManager::new(cache());
    assert_eq!(
        brief(&pipx.parse_list_output("venvs are in ~/.local\nblack 24.1\nruff\n")),
        pairs(&[("black", "24.1"), ("ruff", "")])
    );
    assert!(pipx.parse_search_output(false, "h\n-\nblack (1)\n").is_empty());
    assert_eq!(pipx.parse_search_output(true, "h\n-\nblack (1)\n").len(), 1);
    assert_eq!(PipxManager::lookup_program(), "pip");
    let info = pipx.parse_info_output("black", true, Some(0), "Version: 24.1\nSummary: formatter\nLicense: MIT\n").unwrap();
    assert_eq!(info.version, "24.1");
    assert!(info.license.is_none());
    match pipx.parse_info_output("black", false, Some(1), "") {
        Err(BoxyError::CommandFailed { manager, command, exit_code }) => {
            assert_eq!((manager.as_str(), command.as_str(), exit_code), ("pipx", "pip show black", 1));
        }
        _ => panic!("expected a failed command"),
    }
    let installed = Package::bare("black".into(), "24.1".into(), "pipx".into());
    assert!(pipx.outdated_entry(&installed, &info).is_none());
    let mut newer = Package::bare("black".into(), "24.2".into(), "pipx".into());
    newer.latest_version = Some("24.2".into());
    let entry = outdated_from_info(&installed, &newer, "pipx").unwrap();
    assert!(entry.outdated);
    assert_eq!(entry.version, "24.1");
    assert_eq!(entry.latest_version.as_deref(), Some("24.2"));
    let mut same = newer;
    same.latest_version = Some("24.1".into());
    assert!(outdated_from_info(&installed, &same, "pipx").is_none());
}

#[test]
fn cargo_outputs() {
    let cargo = CargoManager::new(cache(), false);
    let list = cargo.parse_list_output("ripgrep v14.1.0:\n    rg\n\nbat v0.24.0:\n");
    assert_eq!(
        brief(&list),
        pairs(&[("ripgrep", "v14.1.0"), ("rg", ""), ("bat", "v0.24.0")])
    );
    assert_eq!(list[0].installed_path.as_deref(), Some("~/.cargo/bin"));
    let found = cargo.parse_search_output(
        "ripgrep = \"14.1.0\"    # Line-oriented search # fast\n= odd\nnothing\nbat = \"0.24\"\n... and 3 more\n",
    );
    assert_eq!(brief(&found), pairs(&[("ripgrep", "14.1.0"), ("bat", "0.24")]));
    assert_eq!(found[0].description.as_deref(), Some("Line-oriented search"));
    assert!(found[1].description.is_none());
    let info = cargo.parse_info_output("bat", "battery = \"1\"  # first\nbat = \"0.24\" # cat clone\n");
    assert_eq!(info.name, "bat");
    assert_eq!(info.version, "1");
    assert_eq!(info.description.as_deref(), Some("first"));
    let missing = cargo.parse_info_output("zzz", "bat = \"0.24\"\n");
    assert_eq!(missing.version, "");
    assert_eq!(missing.installed_path.as_deref(), Some("~/.cargo/bin"));
    assert!(cargo.outdated_entry(&list[0], &info).is_none());
}

#[test]
fn mas_outputs() {
    let mas = MasManager::new(cache());
    let list = mas.parse_list_output("497799835 Xcode (15.2)\n409183694 Keynote Pro (13.2)\n1 (3)\nx\n55 Plain\n");
    assert_eq!(
        brief(&list),
        pairs(&[("Xcode", "15.2"), ("Keynote Pro", "13.2"), ("1", "3"), ("Plain", "")])
    );
    assert_eq!(list[0].installed_path.as_deref(), Some("/Applications"));
    let found = mas.parse_search_output("heading line\n497799835 Xcode (15.2)\n");
    assert_eq!(brief(&found), pairs(&[("Xcode (15.2)", "")]));
    let old = mas.parse_outdated_output("497799835 Xcode (15.1 -> 15.2)\n1 A (1) -> (2)\n2 B (1)\n");
    assert_eq!(brief(&old), pairs(&[("Xcode", "15.1"), ("A", "1"), ("B", "1")]));
    assert_eq!(old[0].latest_version.as_deref(), Some("15.2"));
    assert_eq!(old[1].latest_version.as_deref(), Some("2"));
    assert!(old[2].latest_version.is_none());
    assert!(old.iter().all(|p| p.outdated));
    let info = mas.parse_info_output("Xcode", "Version: 15.2\nDescription: IDE\n");
    assert_eq!(info.version, "15.2");
    assert_eq!(info.description.as_deref(), Some("IDE"));
}

#[test]
fn bun_outputs() {
    let bun = BunManager::new(cache(), true, None);
    let list = bun.parse_list_output("bun pm ls v1\nleft-pad@1.3.0\n@scope/x@2\nplain\n");
    assert_eq!(
        brief(&list),
        pairs(&[("left-pad", "1.3.0"), ("", "scope/x"), ("plain", "")])
    );
    assert_eq!(list[0].installed_path.as_deref(), Some("~/.bun/install/global"));
    let local = BunManager::new(cache(), false, None);
    assert!(local.parse_list_output("a@1\n")[0].installed_path.is_none());
    assert_eq!(brief(&bun.parse_search_output("a 1\nb\n")), pairs(&[("a", "1"), ("b", "")]));
    let info = bun.parse_info_output("a", "version: 1.2\ndescription: thing\n");
    assert_eq!(info.version, "1.2");
    assert_eq!(info.description.as_deref(), Some("thing"));
    assert_eq!(
        BunManager::expand_home_path("~/.bun/install/cache", Some("/home/u")).as_deref(),
        Some("/home/u/.bun/install/cache")
    );
    assert!(BunManager::expand_home_path("~/x", None).is_none());
    assert_eq!(BunManager::expand_home_path("/abs", None).as_deref(), Some("/abs"));
}

#[test]
fn npm_outputs() {
    let npm = NpmManager::new(cache(), NpmScope::Global, None);
    let list = npm
        .parse_list_output(r#"{"name":"lib","dependencies":{"b":{"version":"^2.0.0"},"a":{"version":"~1.0.0","x":1}}}"#)
        .unwrap();
    assert_eq!(brief(&list), pairs(&[("a", "1.0.0"), ("b", "2.0.0")]));
    assert_eq!(list[0].installed_path.as_deref(), Some("/usr/local/lib/node_modules"));
    assert!(npm.parse_list_output("{}").unwrap().is_empty());
    assert!(npm.parse_list_output(r#"{"dependencies":null}"#).unwrap().is_empty());
    for bad in ["[]", r#"{"dependencies":[]}"#, r#"{"dependencies":{"a":{}}}"#, r#"{"dependencies":{"a":"1"}}"#] {
        match npm.parse_list_output(bad) {
            Err(BoxyError::JsonError { message }) => assert_eq!(message, "解析 npm list 输出失败: 结构不符"),
            _ => panic!("expected a JSON error for {}", bad),
        }
    }
    match npm.parse_list_output("{") {
        Err(BoxyError::JsonError { message }) => assert!(message.starts_with("解析 npm list 输出失败: EOF")),
        _ => panic!("expected a JSON error"),
    }
    let found = npm
        .parse_search_output(r#"[{"name":"a","version":"1","description":"d"},{"package":{"name":"b","version":"2"}},{"name":"c"}]"#)
        .unwrap();
    assert_eq!(brief(&found), pairs(&[("a", "1"), ("b", "2")]));
    assert_eq!(found[0].description.as_deref(), Some("d"));
    let objects = npm.parse_search_output(r#"{"objects":[{"package":{"name":"b","version":"2"}}]}"#).unwrap();
    assert_eq!(brief(&objects), pairs(&[("b", "2")]));
    let results = npm.parse_search_output(r#"{"objects":1,"results":[{"name":"r","version":"3"}]}"#).unwrap();
    assert_eq!(brief(&results), pairs(&[("r", "3")]));
    assert!(npm.parse_search_output("3").unwrap().is_empty());
    let info = npm
        .parse_info_output(r#"{"name":"a","version":"1.2","description":"d","license":"MIT","homepage":null}"#)
        .unwrap();
    assert_eq!(info.latest_version.as_deref(), Some("1.2"));
    assert_eq!(info.license.as_deref(), Some("MIT"));
    assert!(info.homepage.is_none());
    assert!(npm.parse_info_output(r#"{"name":"a","version":"1.2"}"#).is_err());
    assert!(npm.parse_info_output(r#"{"name":"a","version":"1","description":"d","license":{}}"#).is_err());
    let old = npm.parse_outdated_output(r#"{"a":{"current":"1","wanted":"1","latest":"2"}}"#).unwrap();
    assert_eq!(brief(&old), pairs(&[("a", "1")]));
    assert!(old[0].outdated);
    assert_eq!(old[0].latest_version.as_deref(), Some("2"));
    assert!(npm.parse_outdated_output("  \n").unwrap().is_empty());
    assert!(npm.parse_outdated_output(r#"{"a":{"current":"1"}}"#).is_err());
    assert!(npm.parse_outdated_output("[]").is_err());
    let deps = npm.parse_dependencies_output(r#"{"x":"^1.0.0","y":"2"}"#).unwrap();
    assert_eq!(brief(&deps), pairs(&[("x", "1.0.0"), ("y", "2")]));
    assert!(deps[0].installed_path.is_none());
    assert!(npm.parse_dependencies_output(" null\n").unwrap().is_empty());
    assert!(npm.parse_dependencies_output("").unwrap().is_empty());
    assert!(npm.parse_dependencies_output(r#"{"x":1}"#).is_err());
    assert_eq!(
        NpmManager::parse_root_output("  /usr/lib/node_modules \nmore\n").as_deref(),
        Some("/usr/lib/node_modules")
    );
    assert!(NpmManager::parse_root_output("\n/x\n").is_none());
    assert!(first_line_path("").is_none());
}

#[test]
fn pnpm_and_yarn_outputs() {
    let pnpm = PnpmManager::new(cache(), true, None);
    let list = pnpm
        .parse_list_output(r#"[{"dependencies":{"a":{"version":"^1"},"b":"~2","c":{"from":"c"}}},{"z":"9"},3]"#)
        .unwrap();
    assert_eq!(brief(&list), pairs(&[("a", "1"), ("b", "2"), ("z", "9")]));
    assert_eq!(list[0].installed_path.as_deref(), Some("~/.pnpm-global"));
    let single = pnpm.parse_list_output(r#"{"dependencies":{"a":{"version":"1"}}}"#).unwrap();
    assert_eq!(brief(&single), pairs(&[("a", "1")]));
    assert!(pnpm.parse_list_output("7").unwrap().is_empty());
    assert!(pnpm.parse_list_output("{").is_err());
    assert_eq!(
        brief(&pnpm.parse_search_output(r#"[{"name":"a","version":"1"},{"package":{"name":"b","version":"2"}}]"#).unwrap()),
        pairs(&[("a", "1")])
    );
    assert!(pnpm.parse_search_output("{}").unwrap().is_empty());
    assert_eq!(pnpm.parse_info_output(r#"{"name":"a","version":"1","description":"d"}"#).unwrap().manager, "pnpm");
    assert_eq!(pnpm.parse_outdated_output(r#"{"a":{"current":"1","latest":"2"}}"#).unwrap().len(), 1);
    assert_eq!(
        PnpmManager::parse_dependency_version(&Json::Text("1".into())).as_deref(),
        Some("1")
    );

    let yarn = YarnManager::new(cache(), false, None);
    let list = yarn.parse_list_output(
        "{\"type\":\"info\",\"data\":\"x\"}\nnot json\n{\"type\":\"tree\",\"data\":{\"name\":\"a\",\"version\":\"1\"}}\n {\"type\":\"tree\",\"data\":{\"name\":\"b\"}} \n{\"type\":\"tree\",\"data\":{}}\n",
    );
    assert_eq!(brief(&list), pairs(&[("a", "1"), ("b", "unknown")]));
    assert!(list[0].installed_path.is_none());
    let info = yarn.parse_info_output("given", r#"{"version":"2","license":"MIT"}"#).unwrap();
    assert_eq!((info.name.as_str(), info.version.as_str()), ("given", "2"));
    assert_eq!(info.latest_version.as_deref(), Some("2"));
    let empty = yarn.parse_info_output("given", "[]").unwrap();
    assert_eq!(empty.version, "unknown");
    assert!(empty.latest_version.is_none());
    assert!(yarn.parse_info_output("given", "").is_err());
    assert_eq!(
        YarnManager::parse_dir_output("/home/u/.config/yarn/global\n").as_deref(),
        Some("/home/u/.config/yarn/global/node_modules")
    );
    assert_eq!(YarnManager::local_root("/w"), "/w/node_modules");
    assert_eq!(yarn.parse_search_output(r#"[{"name":"a","version":"1"}]"#).unwrap().len(), 1);
    let g = YarnManager::new(cache(), true, None);
    let old = g.parse_outdated_output(r#"{"a":{"current":"1","latest":"2"}}"#).unwrap();
    assert_eq!(old[0].installed_path.as_deref(), Some("~/.yarn/global"));
}

#[test]
fn sizes_from_du() {
    let candidates = candidates_for("/root/nm", &strings(&["a", "b", "my pkg"]));
    assert_eq!(candidates[2].path, "/root/nm/my pkg");
    let output = "12\t/root/nm/a\n\nx /root/nm/b\n7 /root/nm/my pkg\n3 /elsewhere\n5\n18446744073709551615 /root/nm/a\n";
    let sizes = read_sizes(output, &candidates);
    assert_eq!(
        sizes,
        vec![("a".to_string(), 12288), ("my pkg".to_string(), 7168), ("a".to_string(), u64::MAX)]
    );
    let packages = vec![
        Package::bare("a".into(), "1".into(), "npm".into()),
        Package::bare("b".into(), "1".into(), "npm".into()),
    ];
    let sized = apply_sizes(&packages, &sizes, Some("/root/nm"));
    assert_eq!(sized[0].size, Some(u64::MAX));
    assert_eq!(sized[0].installed_path.as_deref(), Some("/root/nm/a"));
    assert!(sized[1].size.is_none() && sized[1].installed_path.is_none());
    let plain = apply_sizes(&packages, &sizes, None);
    assert!(plain[0].installed_path.is_none());
    assert_eq!(read_du_line(&"123 23".chars().collect()), Some((123, "23 23".chars().collect())));
    for s in ["0", "007", "+5", "18446744073709551615", "18446744073709551616", "", "+", "-1", "1a", " 1", "１"] {
        let v: Vec<char> = s.chars().collect();
        assert_eq!(parse_number(&v), s.parse::<u64>().ok(), "{:?}", s);
    }
    assert_eq!(bytes_of(1), 1024);
    assert_eq!(bytes_of(u64::MAX / 1024 + 1), u64::MAX);
    assert_eq!(bytes_of(u64::MAX / 1024), 1024u64.saturating_mul(u64::MAX / 1024));
    assert_eq!(chunk_bounds(250, 0), (0, 100));
    assert_eq!(chunk_bounds(250, 2), (200, 250));
    assert_eq!(chunk_bounds(100, 0), (0, 100));
}

#[test]
fn scopes() {
    let ok = |r: Result<ScopeConfig, ScopeError>| {
        let c = r.unwrap();
        (c.global, c.workdir)
    };
    assert_eq!(ok(requested_scope(true, None, None, None)), (true, None));
    assert_eq!(ok(requested_scope(false, Some("GLOBAL"), None, None)), (true, None));
    assert_eq!(
        ok(requested_scope(true, Some("Local"), Some(" /w "), None)),
        (false, Some("/w".to_string()))
    );
    assert_eq!(
        ok(requested_scope(true, Some("local"), Some("~/w"), Some("/home/u"))),
        (false, Some("/home/u/w".to_string()))
    );
    assert!(matches!(requested_scope(true, Some("local"), Some("~/w"), None), Err(ScopeError::NoHome)));
    assert!(matches!(requested_scope(true, Some("local"), Some("  "), None), Err(ScopeError::MissingDirectory)));
    assert!(matches!(requested_scope(true, Some("local"), None, None), Err(ScopeError::MissingDirectory)));
    assert!(matches!(requested_scope(true, None, Some("/w"), None), Err(ScopeError::DirWithoutLocal)));
    assert!(matches!(requested_scope(true, Some("global"), Some("/w"), None), Err(ScopeError::DirWithoutLocal)));
    match requested_scope(false, Some("Team"), None, None) {
        Err(e) => {
            assert!(matches!(&e, ScopeError::UnsupportedScope { scope } if scope == "team"));
            assert_eq!(e.message(), "不支持的 scope: team");
        }
        _ => panic!("expected a refusal"),
    }
    assert_eq!(ok(resolve_scope(Some("pip"), true, None, None, None, false)), (false, None));
    assert_eq!(ok(resolve_scope(Some("npm"), true, None, None, None, false)), (true, None));
    assert_eq!(ok(resolve_scope(None, true, None, None, None, false)), (true, None));
    assert!(matches!(
        resolve_scope(Some("npm"), false, Some("local"), Some("/w"), None, false),
        Err(ScopeError::NotADirectory)
    ));
    match resolve_scope(Some("pip"), false, Some("local"), Some("/w"), None, true) {
        Err(e) => assert_eq!(e.message(), "pip 不支持本地范围"),
        _ => panic!("expected a refusal"),
    }
    assert_eq!(
        ok(resolve_scope(Some("bun"), false, Some("local"), Some("/w"), None, true)),
        (false, Some("/w".to_string()))
    );
    assert_eq!(ok(restrict_scope(Some("mas"), ScopeConfig { global: true, workdir: None })), (false, None));
    assert_eq!(ok(desktop_scope(None, Some("/w"), None, false)), (true, None));
    assert_eq!(ok(desktop_scope(Some("Global"), None, None, false)), (true, None));
    assert_eq!(
        ok(desktop_scope(Some("local"), Some("~/w"), Some("/h"), true)),
        (false, Some("/h/w".to_string()))
    );
    assert!(matches!(
        desktop_scope(Some("local"), Some("/w"), None, false),
        Err(ScopeError::NotADirectory)
    ));
    assert_eq!(
        desktop_scope(Some("local"), None, None, true).unwrap_err().desktop_message(),
        "缺少目录参数"
    );
    assert_eq!(
        desktop_scope(Some("team"), None, None, true).unwrap_err().desktop_message(),
        "不支持的检测范围"
    );
    assert_eq!(ScopeError::NoHome.desktop_message(), "无法解析用户目录");
    assert!(is_openable(" https://example.com "));
    assert!(!is_openable("  \n"));
    assert_eq!(ScopeError::DirWithoutLocal.message(), "--dir 仅能与 --scope=local 一起使用");
    assert_eq!(ScopeError::NotADirectory.message(), "目录不存在或不可访问");
}

#[test]
fn resource_key_is_the_scope_qualified_cache_key() {
    assert_eq!(BrewManager::new(cache()).resource_key(), "brew");
    assert_eq!(NpmManager::new(cache(), NpmScope::Global, None).resource_key(), "npm-global");
    assert_eq!(YarnManager::new(cache(), false, None).resource_key(), "yarn-local");
    let here = PnpmManager::new(cache(), false, Some("/srv/app".to_string()));
    let there = PnpmManager::new(cache(), false, Some("/srv/other".to_string()));
    assert_eq!(here.resource_key(), here.cache_key());
    assert!(here.resource_key().starts_with("pnpm-local-"));
    assert_ne!(here.resource_key(), there.resource_key());
}
