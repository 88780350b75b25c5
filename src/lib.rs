//! Resolution of logical storage locations (a project, a category, a sub-folder
//! and a file name) to concrete per-user paths, and the decisions around
//! persisting whole byte payloads at those paths.
mod location;
mod persist;
mod platform;

pub use location::{
    join, lemma_categories_apart, lemma_paths_nested, lemma_resolution_deterministic,
    lemma_resolved_categories_apart, BaseDirPaths, DirType, PathConfig, ResolutionError,
    ResolvedPaths,
};
pub use persist::{DirectoryOutcome, PersistError, StoreStep};
