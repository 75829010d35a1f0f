use rhy::{
    key_text, Config, ConfigError, ConfigKey, MAX_CONFIG_CHARS, DEFAULT_CACHE_DIR, DEFAULT_MOUNT_PATH,
    DEFAULT_REMOTE_PATH,
};

#[test]
fn default_triple() {
    let c = Config::default_config();
    assert_eq!(c.mount_path, "/remote");
    assert_eq!(c.cache_dir, "/data/rcache");
    assert_eq!(c.remote_path, "vfs/");
    assert_eq!(c.mount_path, DEFAULT_MOUNT_PATH);
    assert_eq!(c.cache_dir, DEFAULT_CACHE_DIR);
    assert_eq!(c.remote_path, DEFAULT_REMOTE_PATH);
}

#[test]
fn absent_entries_take_defaults() {
    let c = Config::from_entries(Some("/mnt".to_string()), None, None);
    assert_eq!(c.mount_path, "/mnt");
    assert_eq!(c.cache_dir, "/data/rcache");
    assert_eq!(c.remote_path, "vfs/");
}

#[test]
fn set_config_changes_one_setting() {
    let c = Config::default_config().set_config(ConfigKey::CacheDir, "/tmp/c");
    assert_eq!(c.cache_dir, "/tmp/c");
    assert_eq!(c.mount_path, "/remote");
    assert_eq!(c.remote_path, "vfs/");
    let c = c.set_config(ConfigKey::RemotePath, "dev");
    assert_eq!(c.get(ConfigKey::RemotePath), "dev");
    assert_eq!(c.get(ConfigKey::CacheDir), "/tmp/c");
    let c = c.set_config(ConfigKey::MountPath, "/m");
    assert_eq!(c.get(ConfigKey::MountPath), "/m");
}

#[test]
fn key_names() {
    assert_eq!(key_text(ConfigKey::MountPath), "mount_path");
    assert_eq!(key_text(ConfigKey::CacheDir), "cache_dir");
    assert_eq!(key_text(ConfigKey::RemotePath), "remote_path");
}

#[test]
fn reads_settings_from_yaml() {
    let c = Config::from_yaml("mount_path: /mnt/src\ncache_dir: /var/cache\n").unwrap();
    assert_eq!(c.mount_path, "/mnt/src");
    assert_eq!(c.cache_dir, "/var/cache");
    assert_eq!(c.remote_path, "vfs/");
}

#[test]
fn empty_yaml_gives_defaults() {
    assert_eq!(Config::from_yaml("").unwrap(), Config::default_config());
}

#[test]
fn malformed_yaml_is_refused() {
    assert_eq!(Config::from_yaml("mount_path: [unclosed"), Err(ConfigError::Unreadable));
}

#[test]
fn yaml_text_names_every_setting() {
    let c = Config::from_entries(Some("/a".to_string()), Some("/b".to_string()), Some("c".to_string()));
    let text = c.to_yaml();
    assert!(text.contains("mount_path: /a"));
    assert!(text.contains("cache_dir: /b"));
    assert!(text.contains("remote_path: c"));
    assert!(text.find("cache_dir").unwrap() < text.find("mount_path").unwrap());
    assert_eq!(Config::from_yaml(&text).unwrap(), c);
}

#[test]
fn deeply_nested_yaml_at_the_bound_is_read() {
    let text = "- ".repeat(MAX_CONFIG_CHARS / 2);
    assert_eq!(text.chars().count(), MAX_CONFIG_CHARS);
    assert_eq!(Config::from_yaml(&text), Ok(Config::default_config()));
}

#[test]
fn nesting_of_both_kinds_at_the_bound_is_read() {
    let block = "- ".repeat(384);
    let flow = "[".repeat(MAX_CONFIG_CHARS - block.len());
    let text = block + &flow;
    assert_eq!(text.chars().count(), MAX_CONFIG_CHARS);
    assert_eq!(Config::from_yaml(&text), Err(ConfigError::Unreadable));
    let text = "- ".repeat(256) + &"[".repeat(255) + &"]".repeat(255);
    assert!(text.chars().count() <= MAX_CONFIG_CHARS);
    assert_eq!(Config::from_yaml(&text), Ok(Config::default_config()));
}

#[test]
fn yaml_over_the_bound_is_refused() {
    let text = "- ".repeat(MAX_CONFIG_CHARS / 2) + "x";
    assert_eq!(Config::from_yaml(&text), Err(ConfigError::TooLong));
    let long = format!("mount_path: /{}\n", "é".repeat(MAX_CONFIG_CHARS));
    assert_eq!(Config::from_yaml(&long), Err(ConfigError::TooLong));
}

#[test]
fn yaml_bound_counts_characters() {
    let path = format!("/{}", "é".repeat(900));
    let text = format!("mount_path: {}\n", path);
    assert!(text.len() > MAX_CONFIG_CHARS);
    assert_eq!(Config::from_yaml(&text).unwrap().mount_path, path);
}
