//! What every manager adapter offers to the engine without running anything.

use vstd::prelude::*;
use crate::package::Capability;
use crate::text::{copy_str, same_text, views_of};

verus! {

/// The managers that the engine knows, in the order in which they are scanned.
pub open spec fn manager_names() -> Seq<Seq<char>> {
    seq![
        "brew"@,
        "npm"@,
        "pnpm"@,
        "yarn"@,
        "bun"@,
        "pip"@,
        "pipx"@,
        "uv"@,
        "cargo"@,
        "mas"@,
    ]
}

/// The managers that the engine knows, in the order in which they are scanned.
pub fn all_managers() -> (r: Vec<String>)
    ensures
        views_of(r@) == manager_names(),
{
    let mut r: Vec<String> = Vec::new();
    r.push(copy_str("brew"));
    r.push(copy_str("npm"));
    r.push(copy_str("pnpm"));
    r.push(copy_str("yarn"));
    r.push(copy_str("bun"));
    r.push(copy_str("pip"));
    r.push(copy_str("pipx"));
    r.push(copy_str("uv"));
    r.push(copy_str("cargo"));
    r.push(copy_str("mas"));
    assert(views_of(r@) =~= manager_names());
    r
}

/// Whether the manager `name` tells a global scope from a local one.
pub open spec fn scoped(name: Seq<char>) -> bool {
    name == "npm"@ || name == "pnpm"@ || name == "yarn"@ || name == "bun"@
}

/// Whether the manager `name` tells a global scope from a local one.
pub fn supports_global(name: &str) -> (r: bool)
    ensures
        r == scoped(name@),
{
    same_text(name, "npm") || same_text(name, "pnpm") || same_text(name, "yarn") || same_text(
        name,
        "bun",
    )
}

/// Whether `capability` is among `capabilities`.
pub fn has_capability(capabilities: &Vec<Capability>, capability: Capability) -> (r: bool)
    ensures
        r == capabilities@.contains(capability),
{
    let mut i: usize = 0;
    while i < capabilities.len()
        invariant
            i <= capabilities.len(),
            forall|k: int| 0 <= k < i ==> capabilities@[k] != capability,
        decreases capabilities.len() - i,
    {
        if capabilities[i] == capability {
            return true;
        }
        i = i + 1;
    }
    false
}

/// The part of a manager adapter that needs no process: its name, the key
/// of its cache entry and the operations it advertises.
pub trait PackageManager {
    /// The manager's name.
    spec fn title(&self) -> Seq<char>;

    /// The key of the manager's cache entry.
    spec fn key(&self) -> Seq<char>;

    /// The operations that the manager advertises.
    spec fn advertised(&self) -> Seq<Capability>;

    /// The manager's name.
    fn name(&self) -> (r: &str)
        ensures
            r@ == self.title(),
    ;

    /// The key of the manager's cache entry.
    fn cache_key(&self) -> (r: &str)
        ensures
            r@ == self.key(),
    ;

    /// The operations that the manager advertises.
    fn capabilities(&self) -> (r: Vec<Capability>)
        ensures
            r@ == self.advertised(),
    ;

    /// The key of the resource that the manager's operations contend for:
    /// the manager with its scope, as in the key of its cache entry. Two
    /// operations with the same key never run at the same time.
    fn resource_key(&self) -> (r: &str)
        ensures
            r@ == self.key(),
    {
        self.cache_key()
    }

    /// Whether the manager advertises `capability`.
    fn supports(&self, capability: Capability) -> (r: bool)
        ensures
            r == self.advertised().contains(capability),
    {
        let all = self.capabilities();
        has_capability(&all, capability)
    }
}

} // verus!
