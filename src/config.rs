use vstd::prelude::*;

verus! {

/// The mount root used when the configuration names none.
pub const DEFAULT_MOUNT_PATH: &'static str = "/remote";

/// The cache directory used when the configuration names none.
pub const DEFAULT_CACHE_DIR: &'static str = "/data/rcache";

/// The path below the cache directory used when the configuration names none.
pub const DEFAULT_REMOTE_PATH: &'static str = "vfs/";

/// The three roots: `mount_path` holds the tracked files, and
/// `cache_dir` joined with `remote_path` is the root of their mirror.
#[derive(Debug, Clone, PartialEq, Eq)]
pub struct Config {
    pub mount_path: String,
    pub cache_dir: String,
    pub remote_path: String,
}

/// One of the three settings of a `Config`.
#[derive(Debug, Clone, Copy, PartialEq, Eq, Structural)]
pub enum ConfigKey {
    MountPath,
    CacheDir,
    RemotePath,
}

/// The name under which a setting is stored.
pub open spec fn key_name(k: ConfigKey) -> Seq<char> {
    match k {
        ConfigKey::MountPath => seq!['m', 'o', 'u', 'n', 't', '_', 'p', 'a', 't', 'h'],
        ConfigKey::CacheDir => seq!['c', 'a', 'c', 'h', 'e', '_', 'd', 'i', 'r'],
        ConfigKey::RemotePath => seq!['r', 'e', 'm', 'o', 't', 'e', '_', 'p', 'a', 't', 'h'],
    }
}

/// The value that a stored setting gives, or the default where it is absent.
pub open spec fn or_default(v: Option<String>, default: Seq<char>) -> Seq<char> {
    match v {
        Some(s) => s@,
        None => default,
    }
}

fn value_or(v: Option<String>, default: &str) -> (r: String)
    ensures
        r@ == or_default(v, default@),
{
    match v {
        Some(s) => s,
        None => default.to_owned(),
    }
}

impl Config {
    /// The configuration used when none is stored.
    pub fn default_config() -> (r: Config)
        ensures
            r.mount_path@ == DEFAULT_MOUNT_PATH@,
            r.cache_dir@ == DEFAULT_CACHE_DIR@,
            r.remote_path@ == DEFAULT_REMOTE_PATH@,
    {
        Config {
            mount_path: DEFAULT_MOUNT_PATH.to_owned(),
            cache_dir: DEFAULT_CACHE_DIR.to_owned(),
            remote_path: DEFAULT_REMOTE_PATH.to_owned(),
        }
    }

    /// A configuration from the stored settings; each absent one takes its
    /// default.
    pub fn from_entries(
        mount_path: Option<String>,
        cache_dir: Option<String>,
        remote_path: Option<String>,
    ) -> (r: Config)
        ensures
            r.mount_path@ == or_default(mount_path, DEFAULT_MOUNT_PATH@),
            r.cache_dir@ == or_default(cache_dir, DEFAULT_CACHE_DIR@),
            r.remote_path@ == or_default(remote_path, DEFAULT_REMOTE_PATH@),
    {
        Config {
            mount_path: value_or(mount_path, DEFAULT_MOUNT_PATH),
            cache_dir: value_or(cache_dir, DEFAULT_CACHE_DIR),
            remote_path: value_or(remote_path, DEFAULT_REMOTE_PATH),
        }
    }

    /// The value of one setting.
    pub fn get(&self, key: ConfigKey) -> (r: &str)
        ensures
            key == ConfigKey::MountPath ==> r@ == self.mount_path@,
            key == ConfigKey::CacheDir ==> r@ == self.cache_dir@,
            key == ConfigKey::RemotePath ==> r@ == self.remote_path@,
    {
        match key {
            ConfigKey::MountPath => self.mount_path.as_str(),
            ConfigKey::CacheDir => self.cache_dir.as_str(),
            ConfigKey::RemotePath => self.remote_path.as_str(),
        }
    }

    /// The configuration with one setting replaced by `value`; the other two
    /// are kept.
    pub fn set_config(self, key: ConfigKey, value: &str) -> (r: Config)
        ensures
            r.mount_path@ == (if key == ConfigKey::MountPath {
                value@
            } else {
                self.mount_path@
            }),
            r.cache_dir@ == (if key == ConfigKey::CacheDir {
                value@
            } else {
                self.cache_dir@
            }),
            r.remote_path@ == (if key == ConfigKey::RemotePath {
                value@
            } else {
                self.remote_path@
            }),
    {
        let mut c = self;
        match key {
            ConfigKey::MountPath => {
                c.mount_path = value.to_owned();
            },
            ConfigKey::CacheDir => {
                c.cache_dir = value.to_owned();
            },
            ConfigKey::RemotePath => {
                c.remote_path = value.to_owned();
            },
        }
        c
    }
}

} // verus!
