use vstd::prelude::*;

verus! {

/// What the file system said when asked to delete one file.
#[derive(Debug, Clone, Copy, PartialEq, Eq, Structural)]
pub enum RemoveStatus {
    /// The file was there and is gone now.
    Deleted,
    /// There was no file at that path.
    Missing,
    /// The file could not be deleted for another reason.
    Failed,
}

/// The outcome of invalidating one mirror file.
#[derive(Debug, Clone, Copy, PartialEq, Eq, Structural)]
pub enum Removal {
    Removed,
    NotFound,
}

/// Invalidation could not be carried out.
#[derive(Debug, Clone, Copy, PartialEq, Eq, Structural)]
pub enum InvalidateError {
    /// The file system refused to delete an existing entry.
    RemoveFailed,
}

/// The outcome that a deletion attempt stands for: a missing file is a soft
/// outcome, not an error.
pub open spec fn removal_of(s: RemoveStatus) -> Result<Removal, InvalidateError> {
    match s {
        RemoveStatus::Deleted => Ok(Removal::Removed),
        RemoveStatus::Missing => Ok(Removal::NotFound),
        RemoveStatus::Failed => Err(InvalidateError::RemoveFailed),
    }
}

/// What deleting `p` reports when the files present are `present`.
pub open spec fn delete_status(present: Set<Seq<Seq<char>>>, p: Seq<Seq<char>>) -> RemoveStatus {
    if present.contains(p) {
        RemoveStatus::Deleted
    } else {
        RemoveStatus::Missing
    }
}

/// Classifies the answer to one deletion of a mirror file.
pub fn invalidate_one(status: RemoveStatus) -> (r: Result<Removal, InvalidateError>)
    ensures
        r == removal_of(status),
{
    match status {
        RemoveStatus::Deleted => Ok(Removal::Removed),
        RemoveStatus::Missing => Ok(Removal::NotFound),
        RemoveStatus::Failed => Err(InvalidateError::RemoveFailed),
    }
}

/// Invalidating a present file twice gives `Removed`, then `NotFound`, and
/// the second call is no error.
pub proof fn lemma_invalidate_twice(present: Set<Seq<Seq<char>>>, p: Seq<Seq<char>>)
    requires
        present.contains(p),
    ensures
        removal_of(delete_status(present, p)) == Ok::<Removal, InvalidateError>(Removal::Removed),
        removal_of(delete_status(present.remove(p), p)) == Ok::<Removal, InvalidateError>(
            Removal::NotFound,
        ),
{
}

/// The kind of an entry found under the cache root.
#[derive(Debug, Clone, Copy, PartialEq, Eq, Structural)]
pub enum EntryKind {
    File,
    Dir,
    /// Anything else, such as a symbolic link; it is left alone.
    Other,
}

/// What stands at the cache root.
#[derive(Debug, Clone, Copy, PartialEq, Eq, Structural)]
pub enum RootKind {
    Missing,
    File,
    Dir,
}

/// What a full wipe of the cache does.
#[derive(Debug, PartialEq, Eq)]
pub enum WipePlan {
    /// There is no cache root: nothing is deleted and the count is 0.
    RootMissing,
    /// The cache root is a single file: it alone is deleted.
    RemoveRoot,
    /// Delete the entries at these positions of the walk, all regular files;
    /// directories stay.
    RemoveEntries(Vec<usize>),
}

/// The positions of the regular files in a walk of the cache tree, in order.
pub open spec fn file_positions(t: Seq<EntryKind>) -> Seq<int>
    decreases t.len(),
{
    if t.len() == 0 {
        Seq::empty()
    } else if t.last() == EntryKind::File {
        file_positions(t.drop_last()).push(t.len() - 1)
    } else {
        file_positions(t.drop_last())
    }
}

/// The entries left after every regular file is deleted.
pub open spec fn survivors(t: Seq<EntryKind>) -> Seq<EntryKind>
    decreases t.len(),
{
    if t.len() == 0 {
        Seq::empty()
    } else if t.last() == EntryKind::File {
        survivors(t.drop_last())
    } else {
        survivors(t.drop_last()).push(t.last())
    }
}

/// The directories of a walk, in order.
pub open spec fn dirs(t: Seq<EntryKind>) -> Seq<EntryKind>
    decreases t.len(),
{
    if t.len() == 0 {
        Seq::empty()
    } else if t.last() == EntryKind::Dir {
        dirs(t.drop_last()).push(t.last())
    } else {
        dirs(t.drop_last())
    }
}

/// The number of files that a wipe plan deletes.
pub open spec fn plan_count(p: WipePlan) -> nat {
    match p {
        WipePlan::RootMissing => 0,
        WipePlan::RemoveRoot => 1,
        WipePlan::RemoveEntries(v) => v@.len(),
    }
}

/// Plans a full wipe of the cache: every regular file under the root goes,
/// directories and other entries stay.
pub fn plan_wipe(root: RootKind, entries: &Vec<EntryKind>) -> (r: WipePlan)
    ensures
        root == RootKind::Missing ==> r == WipePlan::RootMissing,
        root == RootKind::File ==> r == WipePlan::RemoveRoot,
        root == RootKind::Dir ==> r is RemoveEntries && r->RemoveEntries_0@.map_values(
            |i: usize| i as int,
        ) == file_positions(entries@),
{
    match root {
        RootKind::Missing => WipePlan::RootMissing,
        RootKind::File => WipePlan::RemoveRoot,
        RootKind::Dir => {
            let mut out: Vec<usize> = Vec::new();
            let mut i: usize = 0;
            while i < entries.len()
                invariant
                    i <= entries.len(),
                    out@.map_values(|i: usize| i as int) == file_positions(
                        entries@.subrange(0, i as int),
                    ),
                decreases entries.len() - i,
            {
                let ghost before = out@;
                assert(entries@.subrange(0, i + 1).drop_last() =~= entries@.subrange(0, i as int));
                if entries[i] == EntryKind::File {
                    out.push(i);
                    assert(out@.map_values(|i: usize| i as int) =~= before.map_values(
                        |i: usize| i as int,
                    ).push(i as int));
                }
                i = i + 1;
            }
            assert(entries@.subrange(0, entries@.len() as int) =~= entries@);
            WipePlan::RemoveEntries(out)
        },
    }
}

/// The number of files a wipe plan deletes, for the report.
pub fn wipe_count(plan: &WipePlan) -> (r: usize)
    ensures
        r == plan_count(*plan),
{
    match plan {
        WipePlan::RootMissing => 0,
        WipePlan::RemoveRoot => 1,
        WipePlan::RemoveEntries(v) => v.len(),
    }
}

/// The planned positions are exactly those of the regular files, so what a
/// wipe leaves is `survivors`.
pub proof fn lemma_positions_are_files(t: Seq<EntryKind>)
    ensures
        forall|j: int| 0 <= j < t.len() ==> (file_positions(t).contains(j) <==> t[j] == EntryKind::File),
        forall|j: int| file_positions(t).contains(j) ==> 0 <= j < t.len(),
    decreases t.len(),
{
    if t.len() > 0 {
        let u = t.drop_last();
        lemma_positions_are_files(u);
        let f = file_positions(u);
        assert forall|j: int| 0 <= j < t.len() implies (file_positions(t).contains(j) <==> t[j]
            == EntryKind::File) by {
            if j < u.len() {
                assert(t[j] == u[j]);
            }
            if t.last() == EntryKind::File {
                assert(file_positions(t) == f.push(t.len() - 1));
                if file_positions(t).contains(j) && j != t.len() - 1 {
                    let x = choose|x: int| 0 <= x < file_positions(t).len() && file_positions(t)[x] == j;
                    assert(f[x] == j);
                }
                if j < u.len() && f.contains(j) {
                    let x = choose|x: int| 0 <= x < f.len() && f[x] == j;
                    assert(file_positions(t)[x] == j);
                }
                if j == t.len() - 1 {
                    assert(file_positions(t)[f.len() as int] == j);
                }
            }
        }
        assert forall|j: int| file_positions(t).contains(j) implies 0 <= j < t.len() by {
            if t.last() == EntryKind::File {
                assert(file_positions(t) == f.push(t.len() - 1));
                if j != t.len() - 1 {
                    let x = choose|x: int| 0 <= x < file_positions(t).len() && file_positions(t)[x] == j;
                    assert(f[x] == j);
                    assert(f.contains(j));
                }
            } else {
                assert(file_positions(t) == f);
                assert(f.contains(j));
            }
        }
    }
}

/// A full wipe keeps the directory tree as it was and leaves no regular
/// file, so a second wipe right after it deletes nothing.
pub proof fn lemma_wipe_keeps_dirs(t: Seq<EntryKind>)
    ensures
        dirs(survivors(t)) == dirs(t),
        forall|i: int| 0 <= i < survivors(t).len() ==> #[trigger] survivors(t)[i] != EntryKind::File,
        file_positions(survivors(t)).len() == 0,
    decreases t.len(),
{
    if t.len() > 0 {
        lemma_wipe_keeps_dirs(t.drop_last());
        let s = survivors(t.drop_last());
        if t.last() != EntryKind::File {
            assert(s.push(t.last()).drop_last() =~= s);
        }
    }
}

} // verus!
