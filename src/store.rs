use vstd::prelude::*;
use vstd::string::StrSliceExecFns;
use crate::config::{
    key_name, Config, ConfigKey, DEFAULT_CACHE_DIR, DEFAULT_MOUNT_PATH,
    DEFAULT_REMOTE_PATH,
};

verus! {

/// The string stored under `key` in the first YAML document of `text`:
/// `None` where the text is no YAML, `Some(None)` where there is no such
/// string.
pub uninterp spec fn yaml_str_field(text: Seq<char>, key: Seq<char>) -> Option<Option<Seq<char>>>;

/// The YAML text of a mapping from strings to strings, in the given order.
pub uninterp spec fn yaml_map_text(entries: Seq<(Seq<char>, Seq<char>)>) -> Seq<char>;

/// A looked-up field, with the string as its characters.
pub open spec fn field_view(r: Option<Option<String>>) -> Option<Option<Seq<char>>> {
    match r {
        None => None,
        Some(None) => Some(None),
        Some(Some(s)) => Some(Some(s@)),
    }
}

/// Pairs of strings, as characters.
pub open spec fn pairs_view(v: Seq<(String, String)>) -> Seq<(Seq<char>, Seq<char>)> {
    v.map_values(|p: (String, String)| (p.0@, p.1@))
}

/// The longest configuration text, in characters, that is handed to the
/// YAML loader. The loader recurses once per level of block nesting, so a
/// bound on the length bounds the depth of its recursion; three paths fit
/// well within it.
pub const MAX_CONFIG_CHARS: usize = 1024;

/// Relies on `yaml_rust2::YamlLoader::load_from_str`, indexing of the first
/// document by `key`, and `Yaml::as_str`: the result depends on the text and
/// the key alone. The loader recurses for each nesting level, without a
/// bound on block nesting, so the text's length is bounded.
#[verifier::external_body]
fn load_str_field(text: &str, key: &str) -> (r: Option<Option<String>>)
    requires
        text@.len() <= MAX_CONFIG_CHARS,
    ensures
        field_view(r) == yaml_str_field(text@, key@),
{
    let docs = match yaml_rust2::YamlLoader::load_from_str(text) {
        Ok(docs) => docs,
        Err(_) => return None,
    };
    match docs.first() {
        Some(doc) => Some(doc[key].as_str().map(|s| s.to_owned())),
        None => Some(None),
    }
}

/// Relies on `yaml_rust2::YamlEmitter::dump` of a `Yaml::Hash` built from
/// the pairs in order: the text depends on the pairs alone. The emitter
/// fails only when its writer does, and writing into a `String` does not.
#[verifier::external_body]
fn emit_str_map(entries: &Vec<(String, String)>) -> (r: Option<String>)
    ensures
        r is Some,
        r->Some_0@ == yaml_map_text(pairs_view(entries@)),
{
    let mut hash = yaml_rust2::yaml::Hash::new();
    for (k, v) in entries {
        hash.insert(yaml_rust2::Yaml::String(k.clone()), yaml_rust2::Yaml::String(v.clone()));
    }
    let mut out = String::new();
    match yaml_rust2::YamlEmitter::new(&mut out).dump(&yaml_rust2::Yaml::Hash(hash)) {
        Ok(()) => Some(out),
        Err(_) => None,
    }
}

/// Why a stored configuration could not be read.
#[derive(Debug, Clone, Copy, PartialEq, Eq, Structural)]
pub enum ConfigError {
    /// The text is not YAML.
    Unreadable,
    /// The text is longer than `MAX_CONFIG_CHARS` characters.
    TooLong,
}

/// The key under which a setting is stored.
pub fn key_text(key: ConfigKey) -> (r: &'static str)
    ensures
        r@ == key_name(key),
{
    proof {
        reveal_strlit("mount_path");
        reveal_strlit("cache_dir");
        reveal_strlit("remote_path");
    }
    match key {
        ConfigKey::MountPath => "mount_path",
        ConfigKey::CacheDir => "cache_dir",
        ConfigKey::RemotePath => "remote_path",
    }
}

/// The setting stored under `key` in `text`, with its default where absent.
pub open spec fn stored_or_default(text: Seq<char>, key: ConfigKey, default: Seq<char>) -> Seq<char> {
    match yaml_str_field(text, key_name(key)) {
        Some(Some(s)) => s,
        _ => default,
    }
}

/// The three settings as stored pairs, in the order in which they are written.
pub open spec fn config_pairs(c: Config) -> Seq<(Seq<char>, Seq<char>)> {
    seq![
        (key_name(ConfigKey::CacheDir), c.cache_dir@),
        (key_name(ConfigKey::MountPath), c.mount_path@),
        (key_name(ConfigKey::RemotePath), c.remote_path@),
    ]
}

fn stored_field(text: &str, key: ConfigKey) -> (r: Result<Option<String>, ConfigError>)
    requires
        text@.len() <= MAX_CONFIG_CHARS,
    ensures
        match yaml_str_field(text@, key_name(key)) {
            None => r == Err::<Option<String>, ConfigError>(ConfigError::Unreadable),
            Some(f) => r is Ok && (r->Ok_0 is Some) == (f is Some) && (f is Some ==> r->Ok_0->Some_0@
                == f->Some_0),
        },
{
    match load_str_field(text, key_text(key)) {
        None => Err(ConfigError::Unreadable),
        Some(f) => Ok(f),
    }
}

impl Config {
    /// Reads a configuration from its stored YAML text. A setting that is
    /// absent, or not a string, takes its default; text that is too long or
    /// no YAML is refused.
    pub fn from_yaml(text: &str) -> (r: Result<Config, ConfigError>)
        ensures
            text@.len() > MAX_CONFIG_CHARS ==> r == Err::<Config, ConfigError>(ConfigError::TooLong),
            text@.len() <= MAX_CONFIG_CHARS ==> (r is Ok <==> (yaml_str_field(text@, key_name(ConfigKey::MountPath)) is Some
                && yaml_str_field(text@, key_name(ConfigKey::CacheDir)) is Some
                && yaml_str_field(text@, key_name(ConfigKey::RemotePath)) is Some)),
            text@.len() <= MAX_CONFIG_CHARS && r is Err ==> r->Err_0 == ConfigError::Unreadable,
            r is Ok ==> {
                let c = r->Ok_0;
                &&& c.mount_path@ == stored_or_default(text@, ConfigKey::MountPath, DEFAULT_MOUNT_PATH@)
                &&& c.cache_dir@ == stored_or_default(text@, ConfigKey::CacheDir, DEFAULT_CACHE_DIR@)
                &&& c.remote_path@ == stored_or_default(text@, ConfigKey::RemotePath, DEFAULT_REMOTE_PATH@)
            },
    {
        if text.unicode_len() > MAX_CONFIG_CHARS {
            return Err(ConfigError::TooLong);
        }
        let mount = match stored_field(text, ConfigKey::MountPath) {
            Ok(f) => f,
            Err(e) => return Err(e),
        };
        let cache = match stored_field(text, ConfigKey::CacheDir) {
            Ok(f) => f,
            Err(e) => return Err(e),
        };
        let remote = match stored_field(text, ConfigKey::RemotePath) {
            Ok(f) => f,
            Err(e) => return Err(e),
        };
        Ok(Config::from_entries(mount, cache, remote))
    }

    /// The YAML text that stores this configuration.
    pub fn to_yaml(&self) -> (r: String)
        ensures
            r@ == yaml_map_text(config_pairs(*self)),
    {
        let mut entries: Vec<(String, String)> = Vec::new();
        entries.push((key_text(ConfigKey::CacheDir).to_owned(), self.cache_dir.clone()));
        entries.push((key_text(ConfigKey::MountPath).to_owned(), self.mount_path.clone()));
        entries.push((key_text(ConfigKey::RemotePath).to_owned(), self.remote_path.clone()));
        assert(pairs_view(entries@) =~= config_pairs(*self));
        match emit_str_map(&entries) {
            Some(text) => text,
            None => String::new(),
        }
    }
}

} // verus!
