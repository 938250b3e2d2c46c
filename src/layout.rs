//! Where the patched files lie, as path components relative to the directory
//! that holds the running executable.
use vstd::prelude::*;

verus! {

/// A relative path: one sequence of characters per component.
pub type RelPath = Seq<Seq<char>>;

/// The disk, as seen from the executable's directory: the bytes of each file.
pub type Disk = Map<RelPath, Seq<u8>>;

/// `resources/app.asar`: the archive that is replaced.
pub open spec fn target_rel() -> RelPath {
    seq!["resources"@, "app.asar"@]
}

/// The backup sits beside the target, under the target's name followed by
/// `.backup`.
pub open spec fn backup_rel() -> RelPath {
    target_rel().update(1, target_rel()[1] + ".backup"@)
}

/// The new archive is written beside the target under the target's name
/// followed by `.partial`, then moved over the target in one step.
pub open spec fn staging_rel() -> RelPath {
    target_rel().update(1, target_rel()[1] + ".partial"@)
}

/// The components of the target path.
pub fn target_path() -> (r: Vec<&'static str>)
    ensures
        r.deep_view() == target_rel(),
{
    let r = vec!["resources", "app.asar"];
    assert(r.deep_view() =~= target_rel());
    r
}

/// The components of the backup path.
pub fn backup_path() -> (r: Vec<&'static str>)
    ensures
        r.deep_view() == backup_rel(),
{
    let r = vec!["resources", "app.asar.backup"];
    proof {
        reveal_strlit("app.asar");
        reveal_strlit(".backup");
        reveal_strlit("app.asar.backup");
        assert(target_rel()[1] + ".backup"@ =~= "app.asar.backup"@);
    }
    assert(r.deep_view() =~= backup_rel());
    r
}

/// The components of the staging path.
pub fn staging_path() -> (r: Vec<&'static str>)
    ensures
        r.deep_view() == staging_rel(),
{
    let r = vec!["resources", "app.asar.partial"];
    proof {
        reveal_strlit("app.asar");
        reveal_strlit(".partial");
        reveal_strlit("app.asar.partial");
        assert(target_rel()[1] + ".partial"@ =~= "app.asar.partial"@);
    }
    assert(r.deep_view() =~= staging_rel());
    r
}

/// The three paths are pairwise distinct.
pub proof fn lemma_paths_distinct()
    ensures
        target_rel() != backup_rel(),
        target_rel() != staging_rel(),
        backup_rel() != staging_rel(),
{
    reveal_strlit("app.asar");
    reveal_strlit(".backup");
    reveal_strlit(".partial");
    assert(target_rel()[1].len() != backup_rel()[1].len());
    assert(target_rel()[1].len() != staging_rel()[1].len());
    assert(backup_rel()[1][9] != staging_rel()[1][9]);
}

} // verus!
