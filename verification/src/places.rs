//! The directories of the user, as the environment gives them.

use vstd::prelude::*;

verus! {

/// The home directory of the user, from `dirs::home_dir()`. Nothing is
/// claimed of the result: it depends on the environment.
#[verifier::external_body]
pub(crate) fn user_home_dir() -> Option<String> {
    dirs::home_dir().map(|p| p.to_string_lossy().into_owned())
}

/// The cache directory of the user, from `dirs::cache_dir()`. Nothing is
/// claimed of the result: it depends on the environment.
#[verifier::external_body]
pub(crate) fn user_cache_dir() -> Option<String> {
    dirs::cache_dir().map(|p| p.to_string_lossy().into_owned())
}

} // verus!
