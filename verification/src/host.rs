//! What only the host can answer: where its directories are and what is on
//! its disk. Nothing here is proved; each function is a single call.

use vstd::prelude::*;

verus! {

/// Calls `dirs::config_dir`: the host's per-user configuration directory, or
/// `None` where the host has none. The answer is the host's, so nothing is
/// claimed of it. A path that is not valid Unicode comes back with the
/// offending parts replaced.
#[verifier::external_body]
pub(crate) fn standard_config_dir() -> (dir: Option<String>) {
    dirs::config_dir().map(|path| path.to_string_lossy().into_owned())
}

/// Calls `dirs::home_dir`: the user's home directory, or `None` where the host
/// knows none. The answer is the host's, so nothing is claimed of it. A path
/// that is not valid Unicode comes back with the offending parts replaced.
#[verifier::external_body]
pub(crate) fn home_dir() -> (dir: Option<String>) {
    dirs::home_dir().map(|path| path.to_string_lossy().into_owned())
}

/// Calls `std::path::Path::is_file`: whether `path` names a regular file at
/// the moment of the call. The answer depends on what is on disk, so nothing
/// is claimed of it.
#[verifier::external_body]
pub(crate) fn is_regular_file(path: &String) -> (present: bool) {
    std::path::Path::new(path).is_file()
}

} // verus!
