//! What a run does to the disk. `apply` gives the effect of each action and
//! `respond` the event that reports it, for a `World` that fixes which
//! operations succeed; `run` follows `step_spec` from the start to the end.
use vstd::prelude::*;
use crate::layout::{Disk, target_rel, backup_rel, staging_rel, lemma_paths_distinct};
use crate::session::{Phase, Event, Action, Outcome, PatchError, expects_spec, step_spec};

verus! {

/// Which operations of a run succeed.
pub struct World {
    /// The executable's directory can be found.
    pub located: bool,
    /// Copying the target to the backup path succeeds.
    pub copy_ok: bool,
    /// Writing the staging file succeeds.
    pub stage_ok: bool,
    /// What a failed write leaves in the staging file.
    pub partial: Seq<u8>,
    /// Moving the staging file over the target succeeds.
    pub commit_ok: bool,
    /// Removing the staging file succeeds.
    pub discard_ok: bool,
}

/// The disk after `a`. A failed copy or move leaves the disk as it was; a
/// failed write may leave part of the bytes in the staging file.
pub open spec fn apply(a: Action, d: Disk, w: World, blob: Seq<u8>) -> Disk {
    match a {
        Action::BackUp => if w.copy_ok {
            d.insert(backup_rel(), d[target_rel()])
        } else {
            d
        },
        Action::Stage => if w.stage_ok {
            d.insert(staging_rel(), blob)
        } else {
            d.insert(staging_rel(), w.partial)
        },
        Action::Commit => if w.commit_ok {
            d.remove(staging_rel()).insert(target_rel(), d[staging_rel()])
        } else {
            d
        },
        Action::Discard => if w.discard_ok {
            d.remove(staging_rel())
        } else {
            d
        },
        _ => d,
    }
}

/// The event that reports how `a` went on disk `d`.
pub open spec fn respond(a: Action, d: Disk, w: World) -> Event {
    match a {
        Action::Locate => Event::Located(w.located),
        Action::Probe => Event::Probed(d.contains_key(target_rel())),
        Action::BackUp => Event::BackedUp(w.copy_ok),
        Action::Stage => Event::Staged(w.stage_ok),
        Action::Commit => Event::Committed(w.commit_ok),
        Action::Discard => Event::Discarded,
        _ => Event::Acknowledged,
    }
}

/// How far a phase is from the end of a run.
pub open spec fn rank(p: Phase) -> nat {
    match p {
        Phase::Start => 8,
        Phase::Locating => 7,
        Phase::Probing => 6,
        Phase::BackingUp => 5,
        Phase::Staging => 4,
        Phase::Committing => 3,
        Phase::Discarding => 2,
        Phase::Reporting(_) => 1,
        Phase::Done => 0,
    }
}

/// The disk at the end, and the actions taken, when the machine stands at
/// `phase` and `event` has just happened on disk `d`.
pub open spec fn drive(phase: Phase, event: Event, d: Disk, w: World, blob: Seq<u8>) -> (Disk, Seq<Action>)
    decreases rank(phase),
{
    if !expects_spec(phase, event) {
        (d, Seq::empty())
    } else {
        let (p, a) = step_spec(phase, event);
        let rest = drive(p, respond(a, d, w), apply(a, d, w, blob), w, blob);
        (rest.0, seq![a] + rest.1)
    }
}

/// A whole run on disk `d`, writing `blob` over the target.
pub open spec fn run(d: Disk, w: World, blob: Seq<u8>) -> (Disk, Seq<Action>) {
    drive(Phase::Start, Event::Begin, d, w, blob)
}

/// Every operation that the run on `d` performs succeeds.
pub open spec fn succeeds(d: Disk, w: World) -> bool {
    w.located && (d.contains_key(target_rel()) ==> w.copy_ok) && w.stage_ok && w.commit_ok
}

/// The actions of a run in which every operation succeeds: the backup is
/// made exactly when the target exists.
pub proof fn law_successful_trace(d: Disk, w: World, blob: Seq<u8>)
    requires
        succeeds(d, w),
    ensures
        run(d, w, blob).1 == if d.contains_key(target_rel()) {
            seq![Action::Locate, Action::Probe, Action::BackUp, Action::Stage, Action::Commit,
                Action::Report(Outcome::Patched), Action::Exit(0)]
        } else {
            seq![Action::Locate, Action::Probe, Action::Stage, Action::Commit,
                Action::Report(Outcome::Patched), Action::Exit(0)]
        },
{
    reveal_with_fuel(drive, 10);
    assert(run(d, w, blob).1 =~= if d.contains_key(target_rel()) {
            seq![Action::Locate, Action::Probe, Action::BackUp, Action::Stage, Action::Commit,
                Action::Report(Outcome::Patched), Action::Exit(0)]
        } else {
            seq![Action::Locate, Action::Probe, Action::Stage, Action::Commit,
                Action::Report(Outcome::Patched), Action::Exit(0)]
        });
}

/// Splits a run on which operation fails first, so that each case unfolds
/// to a fixed sequence of steps.
proof fn lemma_run_by_cases(d: Disk, w: World, blob: Seq<u8>)
    ensures
        ({
            let t = d.contains_key(target_rel());
            let r = run(d, w, blob);
            let staged = if w.stage_ok { blob } else { w.partial };
            let ds = if t { d.insert(backup_rel(), d[target_rel()]) } else { d };
            let dst = ds.insert(staging_rel(), staged);
            let discarded = if w.discard_ok { dst.remove(staging_rel()) } else { dst };
            &&& !w.located ==> r.0 == d && r.1 == seq![Action::Locate,
                Action::Report(Outcome::Failed(PatchError::PathResolution)), Action::Exit(1)]
            &&& w.located && t && !w.copy_ok ==> r.0 == d && r.1 == seq![Action::Locate,
                Action::Probe, Action::BackUp, Action::Report(Outcome::Failed(PatchError::Backup)),
                Action::Exit(1)]
            &&& w.located && (t ==> w.copy_ok) && !(w.stage_ok && w.commit_ok) ==> r.0
                == discarded && r.1.len() >= 2 && r.1.last() == Action::Exit(1) && r.1[r.1.len()
                - 2] == Action::Report(Outcome::Failed(PatchError::Write))
            &&& succeeds(d, w) ==> r.0 == dst.remove(staging_rel()).insert(target_rel(), blob)
        }),
{
    lemma_paths_distinct();
    let t = d.contains_key(target_rel());
    if !w.located {
        reveal_with_fuel(drive, 4);
    } else if t && !w.copy_ok {
        reveal_with_fuel(drive, 6);
    } else if !w.stage_ok {
        reveal_with_fuel(drive, 9);
    } else if !w.commit_ok {
        reveal_with_fuel(drive, 9);
    } else {
        reveal_with_fuel(drive, 9);
    }
}

/// After a run in which every operation succeeds, the target holds exactly
/// the bundled bytes, whatever it held before.
pub proof fn law_target_holds_blob(d: Disk, w: World, blob: Seq<u8>)
    requires
        succeeds(d, w),
    ensures
        run(d, w, blob).0.contains_key(target_rel()),
        run(d, w, blob).0[target_rel()] == blob,
{
    reveal_with_fuel(drive, 10);
    lemma_paths_distinct();
}

/// Where the target existed and the backup copy succeeded, the backup holds
/// exactly what the target held before the run.
pub proof fn law_backup_holds_prior_target(d: Disk, w: World, blob: Seq<u8>)
    requires
        d.contains_key(target_rel()),
        w.located,
        w.copy_ok,
    ensures
        run(d, w, blob).0.contains_key(backup_rel()),
        run(d, w, blob).0[backup_rel()] == d[target_rel()],
{
    reveal_with_fuel(drive, 10);
    lemma_paths_distinct();
}

/// Where the target did not exist, the run leaves the backup path as it
/// found it: no backup is made.
pub proof fn law_no_backup_without_target(d: Disk, w: World, blob: Seq<u8>)
    requires
        !d.contains_key(target_rel()),
    ensures
        run(d, w, blob).0.contains_key(backup_rel()) == d.contains_key(backup_rel()),
        d.contains_key(backup_rel()) ==> run(d, w, blob).0[backup_rel()] == d[backup_rel()],
{
    lemma_run_by_cases(d, w, blob);
    lemma_paths_distinct();
}

/// A second successful run leaves the target as the first left it, and its
/// backup then holds the bundled bytes, not what the target held before the
/// first run.
pub proof fn law_second_run(d: Disk, w1: World, w2: World, blob: Seq<u8>)
    requires
        succeeds(d, w1),
        succeeds(run(d, w1, blob).0, w2),
    ensures
        run(run(d, w1, blob).0, w2, blob).0[target_rel()] == run(d, w1, blob).0[target_rel()],
        run(run(d, w1, blob).0, w2, blob).0[backup_rel()] == blob,
{
    let d1 = run(d, w1, blob).0;
    law_target_holds_blob(d, w1, blob);
    law_target_holds_blob(d1, w2, blob);
    law_backup_holds_prior_target(d1, w2, blob);
}

/// A run in which some operation fails reports the failure, ends with status
/// 1, and leaves the target as it was: either all of the new bytes stand
/// there or none of them.
pub proof fn law_failure_leaves_target(d: Disk, w: World, blob: Seq<u8>)
    requires
        !succeeds(d, w),
    ensures
        run(d, w, blob).0.contains_key(target_rel()) == d.contains_key(target_rel()),
        d.contains_key(target_rel()) ==> run(d, w, blob).0[target_rel()] == d[target_rel()],
        run(d, w, blob).1.len() >= 2,
        run(d, w, blob).1.last() == Action::Exit(1),
        exists|e| run(d, w, blob).1[run(d, w, blob).1.len() - 2] == Action::Report(Outcome::Failed(e)),
{
    lemma_run_by_cases(d, w, blob);
    lemma_paths_distinct();
}

/// The target is never changed unless a backup of what it held has been made.
pub proof fn law_backup_before_overwrite(d: Disk, w: World, blob: Seq<u8>)
    requires
        d.contains_key(target_rel()),
        run(d, w, blob).0[target_rel()] != d[target_rel()],
    ensures
        run(d, w, blob).0.contains_key(backup_rel()),
        run(d, w, blob).0[backup_rel()] == d[target_rel()],
{
    lemma_run_by_cases(d, w, blob);
    lemma_paths_distinct();
}

} // verus!
