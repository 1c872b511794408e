//! The user's standard directories, as the `dirs` crate finds them.
//!
//! What they are depends on the platform and the environment, so nothing
//! is promised of them; the functions that use them take the result as an
//! argument and are specified for every value of it.
//!
//! The library holds paths as `String`s: a directory whose path is not
//! valid UTF-8 is taken with its invalid sequences replaced by U+FFFD
//! (`to_string_lossy`), so paths built on it name a different place.
use vstd::prelude::*;

verus! {

/// The user's configuration directory (`dirs::config_dir`), when there is
/// one. Which directory it is depends on the platform and the environment
/// and is not stated.
#[verifier::external_body]
pub(crate) fn config_dir() -> Option<String> {
    dirs::config_dir().map(|p| p.to_string_lossy().into_owned())
}

/// The user's data directory (`dirs::data_dir`), when there is one. Which
/// directory it is depends on the platform and the environment and is not
/// stated.
#[verifier::external_body]
pub(crate) fn data_dir() -> Option<String> {
    dirs::data_dir().map(|p| p.to_string_lossy().into_owned())
}

/// The user's local data directory (`dirs::data_local_dir`), when there is
/// one. Which directory it is depends on the platform and the environment
/// and is not stated.
#[verifier::external_body]
pub(crate) fn data_local_dir() -> Option<String> {
    dirs::data_local_dir().map(|p| p.to_string_lossy().into_owned())
}

} // verus!
