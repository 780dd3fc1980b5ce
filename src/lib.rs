//! Hot-reloadable module framework: a registry from module identity to live
//! descriptors, and a per-module loader that drives the cache / load / unload /
//! reload protocol while the host performs the dynamic-library work.
use vstd::prelude::*;

pub mod module_id;
pub mod registry;
pub mod paths;
pub mod loader;

pub use crate::module_id::ModuleId;
pub use crate::registry::{ModuleRegistry, RegistryError};
pub use crate::paths::{cache_path, cache_path_in, ModuleCachePath, ModuleSourcePath};
pub use crate::loader::{LoaderError, LoaderState, ModuleLoader};

verus! {

} // verus!
