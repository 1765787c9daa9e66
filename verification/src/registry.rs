//! The adapters by name.

use std::sync::Arc;
use vstd::prelude::*;
use crate::cache::Cache;
use crate::manager::{manager_names, PackageManager};
use crate::managers::brew::BrewManager;
use crate::managers::bun::BunManager;
use crate::managers::cargo::CargoManager;
use crate::managers::mas::MasManager;
use crate::managers::npm::{NpmManager, NpmScope};
use crate::managers::pip::PipManager;
use crate::managers::pipx::PipxManager;
use crate::managers::pnpm::PnpmManager;
use crate::managers::uv::UvManager;
use crate::managers::yarn::YarnManager;
use crate::package::Capability;
use crate::text::same_text;

verus! {

/// One of the adapters.
pub enum Manager {
    Brew(BrewManager),
    Npm(NpmManager),
    Pnpm(PnpmManager),
    Yarn(YarnManager),
    Bun(BunManager),
    Pip(PipManager),
    Pipx(PipxManager),
    Uv(UvManager),
    Cargo(CargoManager),
    Mas(MasManager),
}

impl PackageManager for Manager {
    open spec fn title(&self) -> Seq<char> {
        match self {
            Manager::Brew(m) => m.title(),
            Manager::Npm(m) => m.title(),
            Manager::Pnpm(m) => m.title(),
            Manager::Yarn(m) => m.title(),
            Manager::Bun(m) => m.title(),
            Manager::Pip(m) => m.title(),
            Manager::Pipx(m) => m.title(),
            Manager::Uv(m) => m.title(),
            Manager::Cargo(m) => m.title(),
            Manager::Mas(m) => m.title(),
        }
    }

    open spec fn key(&self) -> Seq<char> {
        match self {
            Manager::Brew(m) => m.key(),
            Manager::Npm(m) => m.key(),
            Manager::Pnpm(m) => m.key(),
            Manager::Yarn(m) => m.key(),
            Manager::Bun(m) => m.key(),
            Manager::Pip(m) => m.key(),
            Manager::Pipx(m) => m.key(),
            Manager::Uv(m) => m.key(),
            Manager::Cargo(m) => m.key(),
            Manager::Mas(m) => m.key(),
        }
    }

    open spec fn advertised(&self) -> Seq<Capability> {
        match self {
            Manager::Brew(m) => m.advertised(),
            Manager::Npm(m) => m.advertised(),
            Manager::Pnpm(m) => m.advertised(),
            Manager::Yarn(m) => m.advertised(),
            Manager::Bun(m) => m.advertised(),
            Manager::Pip(m) => m.advertised(),
            Manager::Pipx(m) => m.advertised(),
            Manager::Uv(m) => m.advertised(),
            Manager::Cargo(m) => m.advertised(),
            Manager::Mas(m) => m.advertised(),
        }
    }

    fn name(&self) -> (r: &str) {
        match self {
            Manager::Brew(m) => m.name(),
            Manager::Npm(m) => m.name(),
            Manager::Pnpm(m) => m.name(),
            Manager::Yarn(m) => m.name(),
            Manager::Bun(m) => m.name(),
            Manager::Pip(m) => m.name(),
            Manager::Pipx(m) => m.name(),
            Manager::Uv(m) => m.name(),
            Manager::Cargo(m) => m.name(),
            Manager::Mas(m) => m.name(),
        }
    }

    fn cache_key(&self) -> (r: &str) {
        match self {
            Manager::Brew(m) => m.cache_key(),
            Manager::Npm(m) => m.cache_key(),
            Manager::Pnpm(m) => m.cache_key(),
            Manager::Yarn(m) => m.cache_key(),
            Manager::Bun(m) => m.cache_key(),
            Manager::Pip(m) => m.cache_key(),
            Manager::Pipx(m) => m.cache_key(),
            Manager::Uv(m) => m.cache_key(),
            Manager::Cargo(m) => m.cache_key(),
            Manager::Mas(m) => m.cache_key(),
        }
    }

    fn capabilities(&self) -> (r: Vec<Capability>) {
        match self {
            Manager::Brew(m) => m.capabilities(),
            Manager::Npm(m) => m.capabilities(),
            Manager::Pnpm(m) => m.capabilities(),
            Manager::Yarn(m) => m.capabilities(),
            Manager::Bun(m) => m.capabilities(),
            Manager::Pip(m) => m.capabilities(),
            Manager::Pipx(m) => m.capabilities(),
            Manager::Uv(m) => m.capabilities(),
            Manager::Cargo(m) => m.capabilities(),
            Manager::Mas(m) => m.capabilities(),
        }
    }
}

/// The adapter of the manager `name` for the given scope; none where the
/// name is not that of a known manager. The scope counts for the managers
/// that tell scopes apart.
pub fn create_manager(name: &str, cache: Arc<Cache>, global: bool, workdir: Option<String>) -> (r:
    Option<Manager>)
    ensures
        r is Some <==> manager_names().contains(name@),
        r matches Some(m) ==> m.title() == name@,
{
    proof {
        reveal_strlit("brew");
        reveal_strlit("npm");
        reveal_strlit("pnpm");
        reveal_strlit("yarn");
        reveal_strlit("bun");
        reveal_strlit("pip");
        reveal_strlit("pipx");
        reveal_strlit("uv");
        reveal_strlit("cargo");
        reveal_strlit("mas");
        let names = manager_names();
        assert(names[0] == "brew"@ && names[1] == "npm"@ && names[2] == "pnpm"@ && names[3]
            == "yarn"@ && names[4] == "bun"@);
        assert(names[5] == "pip"@ && names[6] == "pipx"@ && names[7] == "uv"@ && names[8]
            == "cargo"@ && names[9] == "mas"@);
    }
    if same_text(name, "brew") {
        Some(Manager::Brew(BrewManager::new(cache)))
    } else if same_text(name, "npm") {
        Some(
            Manager::Npm(
                NpmManager::new(
                    cache,
                    if global {
                        NpmScope::Global
                    } else {
                        NpmScope::Local
                    },
                    workdir,
                ),
            ),
        )
    } else if same_text(name, "pnpm") {
        Some(Manager::Pnpm(PnpmManager::new(cache, global, workdir)))
    } else if same_text(name, "yarn") {
        Some(Manager::Yarn(YarnManager::new(cache, global, workdir)))
    } else if same_text(name, "bun") {
        Some(Manager::Bun(BunManager::new(cache, global, workdir)))
    } else if same_text(name, "pip") {
        Some(Manager::Pip(PipManager::new(cache, false)))
    } else if same_text(name, "pipx") {
        Some(Manager::Pipx(PipxManager::new(cache)))
    } else if same_text(name, "uv") {
        Some(Manager::Uv(UvManager::new(cache, false)))
    } else if same_text(name, "cargo") {
        Some(Manager::Cargo(CargoManager::new(cache, false)))
    } else if same_text(name, "mas") {
        Some(Manager::Mas(MasManager::new(cache)))
    } else {
        None
    }
}

} // verus!
