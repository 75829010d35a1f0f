use vstd::prelude::*;

verus! {

/// The segments of a path, each as a sequence of characters.
pub open spec fn segs_view(p: Seq<String>) -> Seq<Seq<char>> {
    p.map_values(|s: String| s@)
}

/// `file` lies strictly below `root`: the segments of `root` are a proper
/// prefix of those of `file`.
pub open spec fn is_strictly_under(file: Seq<Seq<char>>, root: Seq<Seq<char>>) -> bool {
    root.len() < file.len() && file.subrange(0, root.len() as int) == root
}

/// The mirror of `file`: every segment of `file` below `mount`, in order,
/// re-rooted at `cache`.
pub open spec fn mirrored(
    file: Seq<Seq<char>>,
    mount: Seq<Seq<char>>,
    cache: Seq<Seq<char>>,
) -> Seq<Seq<char>> {
    cache + file.subrange(mount.len() as int, file.len() as int)
}

/// A path below the mount root maps to the cache root followed by the same
/// segments, and mapping that mirror back from the cache root to the mount
/// root gives the source path again.
pub proof fn lemma_path_round_trip(
    mount: Seq<Seq<char>>,
    cache: Seq<Seq<char>>,
    rel: Seq<Seq<char>>,
)
    requires
        rel.len() > 0,
    ensures
        is_strictly_under(mount + rel, mount),
        mirrored(mount + rel, mount, cache) == cache + rel,
        is_strictly_under(mirrored(mount + rel, mount, cache), cache),
        mirrored(mirrored(mount + rel, mount, cache), cache, mount) == mount + rel,
{
    let p = mount + rel;
    assert(p.subrange(0, mount.len() as int) =~= mount);
    assert(p.subrange(mount.len() as int, p.len() as int) =~= rel);
    let q = cache + rel;
    assert(q.subrange(0, cache.len() as int) =~= cache);
    assert(q.subrange(cache.len() as int, q.len() as int) =~= rel);
}

/// A path that leaves the mount root's tree at some depth, or that is no
/// deeper than the mount root, has no mirror.
pub proof fn lemma_non_descendant(file: Seq<Seq<char>>, mount: Seq<Seq<char>>, i: int)
    requires
        file.len() <= mount.len() || (0 <= i < mount.len() && i < file.len() && file[i]
            != mount[i]),
    ensures
        !is_strictly_under(file, mount),
{
    if mount.len() < file.len() {
        assert(file.subrange(0, mount.len() as int)[i] == file[i]);
    }
}

/// Why a source path has no mirror.
#[derive(Debug, Clone, Copy, PartialEq, Eq, Structural)]
pub enum MapError {
    /// The source path is not a proper descendant of the mount root.
    NotUnderMountRoot,
}

/// Maps the source path `file` to its mirror under `cache_dir`, keeping
/// every segment between `mount_path` and the file itself.
///
/// The mount root is compared to the ancestor of `file` of the same depth;
/// a path that is not strictly below the mount root (an unrelated tree, or
/// the mount root itself) is refused instead of walked past.
pub fn map_cache_file(
    file: &Vec<String>,
    mount_path: &Vec<String>,
    cache_dir: &Vec<String>,
) -> (r: Result<Vec<String>, MapError>)
    ensures
        match r {
            Ok(p) => is_strictly_under(segs_view(file@), segs_view(mount_path@)) && segs_view(p@)
                == mirrored(segs_view(file@), segs_view(mount_path@), segs_view(cache_dir@)),
            Err(e) => !is_strictly_under(segs_view(file@), segs_view(mount_path@)) && e
                == MapError::NotUnderMountRoot,
        },
{
    let ghost f = segs_view(file@);
    let ghost m = segs_view(mount_path@);
    if mount_path.len() >= file.len() {
        return Err(MapError::NotUnderMountRoot);
    }
    let mut i: usize = 0;
    while i < mount_path.len()
        invariant
            i <= mount_path.len() < file.len(),
            f == segs_view(file@),
            m == segs_view(mount_path@),
            f.subrange(0, i as int) == m.subrange(0, i as int),
        decreases mount_path.len() - i,
    {
        if file[i] != mount_path[i] {
            assert(f.subrange(0, m.len() as int)[i as int] != m[i as int]);
            return Err(MapError::NotUnderMountRoot);
        }
        assert(f.subrange(0, i + 1) =~= f.subrange(0, i as int).push(f[i as int]));
        assert(m.subrange(0, i + 1) =~= m.subrange(0, i as int).push(m[i as int]));
        i = i + 1;
    }
    assert(m.subrange(0, m.len() as int) =~= m);
    let mut out: Vec<String> = Vec::new();
    let mut j: usize = 0;
    while j < cache_dir.len()
        invariant
            j <= cache_dir.len(),
            out@ =~= cache_dir@.subrange(0, j as int),
        decreases cache_dir.len() - j,
    {
        out.push(cache_dir[j].clone());
        j = j + 1;
    }
    let mut k: usize = mount_path.len();
    while k < file.len()
        invariant
            mount_path.len() <= k <= file.len(),
            out@ =~= cache_dir@ + file@.subrange(mount_path.len() as int, k as int),
        decreases file.len() - k,
    {
        out.push(file[k].clone());
        k = k + 1;
    }
    assert(segs_view(out@) =~= mirrored(f, m, segs_view(cache_dir@)));
    Ok(out)
}

/// The mirror of `file` for the configured roots: `mount_root` is the
/// canonical mount path, and the mirror's root is the canonical cache
/// directory `cache_dir` followed by the segments of the remote path.
pub fn get_cached_file_path(
    file: &Vec<String>,
    mount_root: &Vec<String>,
    cache_dir: &Vec<String>,
    remote_path: &Vec<String>,
) -> (r: Result<Vec<String>, MapError>)
    ensures
        match r {
            Ok(p) => is_strictly_under(segs_view(file@), segs_view(mount_root@)) && segs_view(p@)
                == mirrored(
                segs_view(file@),
                segs_view(mount_root@),
                segs_view(cache_dir@) + segs_view(remote_path@),
            ),
            Err(e) => !is_strictly_under(segs_view(file@), segs_view(mount_root@)) && e
                == MapError::NotUnderMountRoot,
        },
{
    let mut root: Vec<String> = cache_dir.clone();
    let mut i: usize = 0;
    while i < remote_path.len()
        invariant
            i <= remote_path.len(),
            root@ =~= cache_dir@ + remote_path@.subrange(0, i as int),
        decreases remote_path.len() - i,
    {
        root.push(remote_path[i].clone());
        i = i + 1;
    }
    assert(segs_view(root@) =~= segs_view(cache_dir@) + segs_view(remote_path@));
    map_cache_file(file, mount_root, &root)
}

} // verus!
