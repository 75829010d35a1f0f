use rhy::{get_cached_file_path, map_cache_file, MapError};

fn segs(p: &str) -> Vec<String> {
    p.split('/').filter(|s| !s.is_empty()).map(|s| s.to_string()).collect()
}

#[test]
fn maps_nested_file_under_cache_root() {
    let r = map_cache_file(&segs("/mnt/a/b/f.txt"), &segs("/mnt"), &segs("/cache"));
    assert_eq!(r, Ok(segs("/cache/a/b/f.txt")));
}

#[test]
fn maps_direct_child() {
    let r = map_cache_file(&segs("/mnt/f.txt"), &segs("/mnt"), &segs("/cache"));
    assert_eq!(r, Ok(segs("/cache/f.txt")));
}

#[test]
fn mapping_round_trips_back_to_source() {
    let p = segs("/mnt/a/b/f.txt");
    let there = map_cache_file(&p, &segs("/mnt"), &segs("/cache")).unwrap();
    let back = map_cache_file(&there, &segs("/cache"), &segs("/mnt")).unwrap();
    assert_eq!(back, p);
}

#[test]
fn rejects_unrelated_tree() {
    let r = map_cache_file(&segs("/other/f.txt"), &segs("/mnt"), &segs("/cache"));
    assert_eq!(r, Err(MapError::NotUnderMountRoot));
}

#[test]
fn rejects_mount_root_itself() {
    let r = map_cache_file(&segs("/mnt"), &segs("/mnt"), &segs("/cache"));
    assert_eq!(r, Err(MapError::NotUnderMountRoot));
}

#[test]
fn rejects_filesystem_root_and_shorter_paths() {
    assert_eq!(
        map_cache_file(&segs("/"), &segs("/mnt"), &segs("/cache")),
        Err(MapError::NotUnderMountRoot)
    );
    assert_eq!(
        map_cache_file(&segs("/mn"), &segs("/mnt/x"), &segs("/cache")),
        Err(MapError::NotUnderMountRoot)
    );
}

#[test]
fn segment_equality_is_not_string_prefix() {
    let r = map_cache_file(&segs("/mntx/f.txt"), &segs("/mnt"), &segs("/cache"));
    assert_eq!(r, Err(MapError::NotUnderMountRoot));
}

#[test]
fn cached_path_appends_remote_path_to_cache_dir() {
    let r = get_cached_file_path(
        &segs("/remote/docs/a.md"),
        &segs("/remote"),
        &segs("/data/rcache"),
        &segs("vfs/"),
    );
    assert_eq!(r, Ok(segs("/data/rcache/vfs/docs/a.md")));
}

#[test]
fn cached_path_refuses_file_outside_mount() {
    let r = get_cached_file_path(&segs("/etc/passwd"), &segs("/remote"), &segs("/data"), &segs("vfs"));
    assert_eq!(r, Err(MapError::NotUnderMountRoot));
}
