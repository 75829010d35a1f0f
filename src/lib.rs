//! Tracks whether a source file has changed since its cached mirror was
//! produced, and decides how that mirror is invalidated.
//!
//! Paths are handled as sequences of segments (the components of an
//! absolute, canonical path, without the leading root). Reading the file
//! system, sleeping and printing are left to the caller: the functions here
//! take what was observed as plain values and say what to do next.

pub mod config;
pub mod duration;
pub mod invalidate;
pub mod paths;
pub mod poller;
pub mod probe;
pub mod store;

pub use config::{Config, ConfigKey, DEFAULT_CACHE_DIR, DEFAULT_MOUNT_PATH, DEFAULT_REMOTE_PATH};
pub use duration::{parse_duration_with_units, DurationError};
pub use invalidate::{
    invalidate_one, plan_wipe, wipe_count, EntryKind, InvalidateError, Removal, RemoveStatus,
    RootKind, WipePlan,
};
pub use paths::{get_cached_file_path, map_cache_file, MapError};
pub use poller::{Poller, SettleError, Step, NANOS_PER_SEC};
pub use probe::{file_age, probe_age, ProbeError};
pub use store::{key_text, ConfigError, MAX_CONFIG_CHARS};
