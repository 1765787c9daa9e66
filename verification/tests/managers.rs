use boxy::cache::Cache;
use boxy::manager::PackageManager;
use boxy::managers::brew::BrewManager;
use boxy::managers::bun::BunManager;
use boxy::managers::cargo::CargoManager;
use boxy::managers::mas::MasManager;
use boxy::managers::npm::{NpmManager, NpmScope};
use boxy::managers::pip::PipManager;
use boxy::managers::pipx::PipxManager;
use boxy::managers::pnpm::PnpmManager;
use boxy::managers::uv::UvManager;
use boxy::managers::yarn::YarnManager;
use boxy::package::Capability;
use std::sync::Arc;

#[test]
fn test_brew_manager_creation() {
    let cache = Arc::new(Cache::new().unwrap());
    let manager = BrewManager::new(cache);
    assert_eq!(manager.name(), "brew");
}

#[test]
fn test_bun_manager_creation() {
    let cache = Arc::new(Cache::new().unwrap());
    let manager = BunManager::new(cache.clone(), true, None);
    assert_eq!(manager.name(), "bun");
}

#[test]
fn test_cargo_manager_creation() {
    let cache = Arc::new(Cache::new().unwrap());
    let manager = CargoManager::new(cache.clone(), true);
    assert_eq!(manager.name(), "cargo");
}

#[test]
fn test_mas_manager_creation() {
    let cache = Arc::new(Cache::new().unwrap());
    let manager = MasManager::new(cache);
    assert_eq!(manager.name(), "mas");
}

#[test]
fn test_npm_manager_creation() {
    let cache = Arc::new(Cache::new().unwrap());
    let manager = NpmManager::new(cache.clone(), NpmScope::Global, None);
    assert_eq!(manager.name(), "npm");
}

#[test]
fn test_pip_manager_creation() {
    let cache = Arc::new(Cache::new().unwrap());
    let manager = PipManager::new(cache.clone(), false);
    assert_eq!(manager.name(), "pip");
}

#[test]
fn test_parse_list_output() {
    let cache = Arc::new(Cache::new().unwrap());
    let manager = PipManager::new(cache, false);
    let output = "Package    Version\n------------\nrequests  2.31.0\nurllib3   2.0.7\n";
    let packages = manager.parse_list_output(output);
    assert_eq!(packages.len(), 2);
    assert_eq!(packages[0].name, "requests");
}

#[test]
fn test_pipx_manager_creation() {
    let cache = Arc::new(Cache::new().unwrap());
    let manager = PipxManager::new(cache);
    assert_eq!(manager.name(), "pipx");
}

#[test]
fn test_pnpm_manager_creation() {
    let cache = Arc::new(Cache::new().unwrap());
    let manager = PnpmManager::new(cache.clone(), true, None);
    assert_eq!(manager.name(), "pnpm");
}

#[test]
fn test_uv_manager_creation() {
    let cache = Arc::new(Cache::new().unwrap());
    let manager = UvManager::new(cache.clone(), false);
    assert_eq!(manager.name(), "uv");
}

#[test]
fn test_yarn_manager_creation() {
    let cache = Arc::new(Cache::new().unwrap());
    let manager = YarnManager::new(cache.clone(), true, None);
    assert_eq!(manager.name(), "yarn");
}

#[test]
fn test_capabilities() {
    let cache = Arc::new(Cache::new().unwrap());
    let manager = BrewManager::new(cache);
    let caps = manager.capabilities();

    assert!(caps.contains(&Capability::ListInstalled));
    assert!(caps.contains(&Capability::SearchRemote));
    assert!(caps.contains(&Capability::VersionSelection));
}

#[test]
fn lib_test_capabilities() {
    let cache = Arc::new(Cache::new().unwrap());

    let caps = BunManager::new(cache.clone(), true, None).capabilities();
    assert!(caps.contains(&Capability::ListInstalled));
    assert!(caps.contains(&Capability::SearchRemote));
    assert!(caps.contains(&Capability::VersionSelection));

    let caps = CargoManager::new(cache.clone(), true).capabilities();
    assert!(caps.contains(&Capability::ListInstalled));
    assert!(caps.contains(&Capability::SearchRemote));
    assert!(caps.contains(&Capability::VersionSelection));

    let caps = MasManager::new(cache.clone()).capabilities();
    assert!(caps.contains(&Capability::ListInstalled));
    assert!(caps.contains(&Capability::SearchRemote));

    let caps = NpmManager::new(cache.clone(), NpmScope::Global, None).capabilities();
    assert!(caps.contains(&Capability::ListInstalled));
    assert!(caps.contains(&Capability::SearchRemote));
    assert!(caps.contains(&Capability::QueryDependencies));
    assert!(caps.contains(&Capability::VersionSelection));

    let caps = PipManager::new(cache.clone(), false).capabilities();
    assert!(caps.contains(&Capability::ListInstalled));
    assert!(caps.contains(&Capability::SearchRemote));
    assert!(caps.contains(&Capability::VersionSelection));

    let caps = PipxManager::new(cache.clone()).capabilities();
    assert!(caps.contains(&Capability::ListInstalled));
    assert!(caps.contains(&Capability::VersionSelection));

    let caps = PnpmManager::new(cache.clone(), true, None).capabilities();
    assert!(caps.contains(&Capability::ListInstalled));
    assert!(caps.contains(&Capability::SearchRemote));
    assert!(caps.contains(&Capability::QueryDependencies));
    assert!(caps.contains(&Capability::VersionSelection));

    let caps = UvManager::new(cache.clone(), false).capabilities();
    assert!(caps.contains(&Capability::ListInstalled));
    assert!(caps.contains(&Capability::SearchRemote));
    assert!(caps.contains(&Capability::VersionSelection));

    let caps = YarnManager::new(cache, true, None).capabilities();
    assert!(caps.contains(&Capability::ListInstalled));
    assert!(caps.contains(&Capability::SearchRemote));
    assert!(caps.contains(&Capability::QueryDependencies));
    assert!(caps.contains(&Capability::VersionSelection));
}
