//! The platform's per-user base directories, as the `directories` crate finds
//! them, and its path separator.
use crate::location::BaseDirPaths;
use directories::BaseDirs;
use vstd::prelude::*;

verus! {

/// Relies on `directories::BaseDirs::new` (`None` when no valid home directory
/// could be found) and its `data_dir`, `config_dir` and `cache_dir` getters,
/// each converted by `Path::to_str` (`None` where the path is not valid
/// UTF-8). What it returns depends on the environment, so nothing is claimed.
#[verifier::external_body]
pub(crate) fn platform_base_dirs() -> (r: Option<BaseDirPaths>) {
    BaseDirs::new().map(
        |dirs| BaseDirPaths {
            data: dirs.data_dir().to_str().map(|s| s.to_string()),
            config: dirs.config_dir().to_str().map(|s| s.to_string()),
            cache: dirs.cache_dir().to_str().map(|s| s.to_string()),
        },
    )
}

/// Relies on `std::path::MAIN_SEPARATOR_STR`: the separator of path components
/// on the platform the library was built for.
#[verifier::external_body]
pub(crate) fn path_separator() -> (r: String) {
    std::path::MAIN_SEPARATOR_STR.to_string()
}

} // verus!
