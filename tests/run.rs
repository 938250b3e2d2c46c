use std::collections::HashMap;

use asar_patch::layout::{backup_path, staging_path, target_path};
use asar_patch::session::{expects, step, Action, Event, Outcome, PatchError, Phase};

type Disk = HashMap<Vec<String>, Vec<u8>>;

/// Which operations of a simulated run succeed.
#[derive(Clone, Copy)]
struct World {
    located: bool,
    copy_ok: bool,
    stage_ok: bool,
    commit_ok: bool,
}

const ALL_OK: World = World { located: true, copy_ok: true, stage_ok: true, commit_ok: true };

fn key(parts: Vec<&'static str>) -> Vec<String> {
    parts.into_iter().map(|p| p.to_string()).collect()
}

/// Drives the machine over an in-memory disk and returns the actions taken.
fn simulate(disk: &mut Disk, world: World, blob: &[u8]) -> Vec<Action> {
    let target = key(target_path());
    let backup = key(backup_path());
    let staging = key(staging_path());
    let mut phase = Phase::Start;
    let mut event = Event::Begin;
    let mut actions = Vec::new();
    while expects(phase, event) {
        let (next, action) = step(phase, event);
        actions.push(action);
        phase = next;
        event = match action {
            Action::Locate => Event::Located(world.located),
            Action::Probe => Event::Probed(disk.contains_key(&target)),
            Action::BackUp => {
                if world.copy_ok {
                    let bytes = disk[&target].clone();
                    disk.insert(backup.clone(), bytes);
                }
                Event::BackedUp(world.copy_ok)
            }
            Action::Stage => {
                if world.stage_ok {
                    disk.insert(staging.clone(), blob.to_vec());
                } else {
                    disk.insert(staging.clone(), blob[..blob.len() / 2].to_vec());
                }
                Event::Staged(world.stage_ok)
            }
            Action::Commit => {
                if world.commit_ok {
                    let bytes = disk.remove(&staging).unwrap();
                    disk.insert(target.clone(), bytes);
                }
                Event::Committed(world.commit_ok)
            }
            Action::Discard => {
                disk.remove(&staging);
                Event::Discarded
            }
            Action::Report(_) | Action::Exit(_) => Event::Acknowledged,
        };
    }
    actions
}

fn disk_with_target(bytes: &[u8]) -> Disk {
    let mut disk = Disk::new();
    disk.insert(key(target_path()), bytes.to_vec());
    disk
}

#[test]
fn paths_lie_under_resources() {
    assert_eq!(target_path(), vec!["resources", "app.asar"]);
    assert_eq!(backup_path(), vec!["resources", "app.asar.backup"]);
    assert_eq!(staging_path(), vec!["resources", "app.asar.partial"]);
}

#[test]
fn first_steps_of_a_run() {
    assert_eq!(step(Phase::Start, Event::Begin), (Phase::Locating, Action::Locate));
    assert_eq!(step(Phase::Locating, Event::Located(true)), (Phase::Probing, Action::Probe));
    assert_eq!(step(Phase::Probing, Event::Probed(true)), (Phase::BackingUp, Action::BackUp));
    assert_eq!(step(Phase::Probing, Event::Probed(false)), (Phase::Staging, Action::Stage));
}

#[test]
fn each_failure_maps_to_its_error() {
    let failed = |e| (Phase::Reporting(Outcome::Failed(e)), Action::Report(Outcome::Failed(e)));
    assert_eq!(step(Phase::Locating, Event::Located(false)), failed(PatchError::PathResolution));
    assert_eq!(step(Phase::BackingUp, Event::BackedUp(false)), failed(PatchError::Backup));
    assert_eq!(step(Phase::Staging, Event::Staged(false)), (Phase::Discarding, Action::Discard));
    assert_eq!(step(Phase::Committing, Event::Committed(false)), (Phase::Discarding, Action::Discard));
    assert_eq!(step(Phase::Discarding, Event::Discarded), failed(PatchError::Write));
}

#[test]
fn exit_status_follows_outcome() {
    assert_eq!(Outcome::Patched.exit_code(), 0);
    assert_eq!(Outcome::Failed(PatchError::Write).exit_code(), 1);
    assert_eq!(
        step(Phase::Reporting(Outcome::Patched), Event::Acknowledged),
        (Phase::Done, Action::Exit(0))
    );
    assert_eq!(
        step(Phase::Reporting(Outcome::Failed(PatchError::Backup)), Event::Acknowledged),
        (Phase::Done, Action::Exit(1))
    );
}

#[test]
fn expects_only_the_awaited_event() {
    assert!(expects(Phase::Start, Event::Begin));
    assert!(expects(Phase::Staging, Event::Staged(false)));
    assert!(!expects(Phase::Start, Event::Located(true)));
    assert!(!expects(Phase::Probing, Event::BackedUp(true)));
    assert!(!expects(Phase::Done, Event::Acknowledged));
}

#[test]
fn messages_name_the_failed_step() {
    assert_eq!(PatchError::PathResolution.context(), "无法获取程序目录");
    assert_eq!(PatchError::Backup.context(), "无法备份原app.asar文件");
    assert_eq!(PatchError::Write.context(), "无法写入app.asar文件");
    assert_eq!(Outcome::Patched.headline(), "汉化完成");
    assert_eq!(Outcome::Failed(PatchError::Write).headline(), "汉化失败，请重试");
}

#[test]
fn target_holds_blob_whatever_it_held() {
    let blob = b"new archive bytes";
    for prior in [&b""[..], &b"x"[..], &[7u8; 300][..]] {
        let mut disk = disk_with_target(prior);
        simulate(&mut disk, ALL_OK, blob);
        assert_eq!(disk[&key(target_path())], blob.to_vec());
        assert!(!disk.contains_key(&key(staging_path())));
    }
}

#[test]
fn backup_holds_prior_target() {
    let mut disk = disk_with_target(b"original");
    disk.insert(key(backup_path()), b"stale backup".to_vec());
    simulate(&mut disk, ALL_OK, b"patched");
    assert_eq!(disk[&key(backup_path())], b"original".to_vec());
}

#[test]
fn no_backup_without_target() {
    let mut disk = Disk::new();
    let actions = simulate(&mut disk, ALL_OK, b"patched");
    assert!(!disk.contains_key(&key(backup_path())));
    assert!(!actions.contains(&Action::BackUp));
    assert_eq!(disk[&key(target_path())], b"patched".to_vec());
    assert_eq!(actions.last(), Some(&Action::Exit(0)));
}

#[test]
fn second_run_backs_up_the_patched_target() {
    let mut disk = disk_with_target(b"original");
    simulate(&mut disk, ALL_OK, b"patched");
    let after_one = disk[&key(target_path())].clone();
    simulate(&mut disk, ALL_OK, b"patched");
    assert_eq!(disk[&key(target_path())], after_one);
    assert_eq!(disk[&key(backup_path())], b"patched".to_vec());
}

#[test]
fn failed_write_leaves_target_untouched() {
    let world = World { stage_ok: false, ..ALL_OK };
    let mut disk = disk_with_target(b"original");
    let actions = simulate(&mut disk, world, b"patched archive");
    assert_eq!(disk[&key(target_path())], b"original".to_vec());
    assert!(!disk.contains_key(&key(staging_path())));
    let n = actions.len();
    assert_eq!(actions[n - 2], Action::Report(Outcome::Failed(PatchError::Write)));
    assert_eq!(actions[n - 1], Action::Exit(1));
}

#[test]
fn failed_commit_leaves_target_untouched() {
    let world = World { commit_ok: false, ..ALL_OK };
    let mut disk = disk_with_target(b"original");
    let actions = simulate(&mut disk, world, b"patched archive");
    assert_eq!(disk[&key(target_path())], b"original".to_vec());
    assert_eq!(actions.last(), Some(&Action::Exit(1)));
}

#[test]
fn failed_backup_stops_before_writing() {
    let world = World { copy_ok: false, ..ALL_OK };
    let mut disk = disk_with_target(b"original");
    let actions = simulate(&mut disk, world, b"patched");
    assert_eq!(
        actions,
        vec![
            Action::Locate,
            Action::Probe,
            Action::BackUp,
            Action::Report(Outcome::Failed(PatchError::Backup)),
            Action::Exit(1)
        ]
    );
    assert_eq!(disk[&key(target_path())], b"original".to_vec());
}

#[test]
fn unknown_location_fails_at_once() {
    let world = World { located: false, ..ALL_OK };
    let mut disk = disk_with_target(b"original");
    let actions = simulate(&mut disk, world, b"patched");
    assert_eq!(
        actions,
        vec![
            Action::Locate,
            Action::Report(Outcome::Failed(PatchError::PathResolution)),
            Action::Exit(1)
        ]
    );
}

#[test]
fn end_to_end_sizes() {
    let original = vec![1u8; 10];
    let blob = vec![2u8; 25];
    let mut disk = disk_with_target(&original);
    let actions = simulate(&mut disk, ALL_OK, &blob);
    assert_eq!(disk[&key(target_path())].len(), 25);
    assert_eq!(disk[&key(target_path())], blob);
    assert_eq!(disk[&key(backup_path())].len(), 10);
    assert_eq!(disk[&key(backup_path())], original);
    assert_eq!(
        actions,
        vec![
            Action::Locate,
            Action::Probe,
            Action::BackUp,
            Action::Stage,
            Action::Commit,
            Action::Report(Outcome::Patched),
            Action::Exit(0)
        ]
    );
}
