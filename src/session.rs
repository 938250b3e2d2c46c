//! A patch run as a state machine. The program around it performs each
//! action and answers with the event that describes how it went; `step`
//! decides what comes next. No step is retried: the first failure ends the run.
use vstd::prelude::*;

verus! {

/// Why a run failed.
#[derive(Clone, Copy, Debug, PartialEq, Eq, Structural)]
pub enum PatchError {
    /// The running executable's location or its directory is unknown.
    PathResolution,
    /// The target exists but could not be copied to the backup path.
    Backup,
    /// The bundled archive could not be put in place of the target.
    Write,
}

impl PatchError {
    /// A short message that says which step failed.
    pub fn context(&self) -> (r: &'static str)
        ensures
            r@ == context_text(*self),
    {
        match self {
            PatchError::PathResolution => "无法获取程序目录",
            PatchError::Backup => "无法备份原app.asar文件",
            PatchError::Write => "无法写入app.asar文件",
        }
    }
}

pub open spec fn context_text(e: PatchError) -> Seq<char> {
    match e {
        PatchError::PathResolution => "无法获取程序目录"@,
        PatchError::Backup => "无法备份原app.asar文件"@,
        PatchError::Write => "无法写入app.asar文件"@,
    }
}

/// How a run ended.
#[derive(Clone, Copy, Debug, PartialEq, Eq, Structural)]
pub enum Outcome {
    Patched,
    Failed(PatchError),
}

impl Outcome {
    /// The process exit status for this outcome: 0 on success, 1 on failure.
    pub fn exit_code(&self) -> (r: i32)
        ensures
            r == exit_code_of(*self),
    {
        match self {
            Outcome::Patched => 0,
            Outcome::Failed(_) => 1,
        }
    }

    /// The line that tells the user how the run ended.
    pub fn headline(&self) -> (r: &'static str)
        ensures
            r@ == headline_text(*self),
    {
        match self {
            Outcome::Patched => "汉化完成",
            Outcome::Failed(_) => "汉化失败，请重试",
        }
    }
}

pub open spec fn headline_text(o: Outcome) -> Seq<char> {
    match o {
        Outcome::Patched => "汉化完成"@,
        Outcome::Failed(_) => "汉化失败，请重试"@,
    }
}

pub open spec fn exit_code_of(o: Outcome) -> i32 {
    match o {
        Outcome::Patched => 0,
        Outcome::Failed(_) => 1,
    }
}

/// Where a run stands: the action it waits on.
#[derive(Clone, Copy, Debug, PartialEq, Eq, Structural)]
pub enum Phase {
    /// Nothing done yet.
    Start,
    /// Waits for the executable's directory.
    Locating,
    /// Waits to learn whether the target exists.
    Probing,
    /// Waits for the copy of the target to the backup path.
    BackingUp,
    /// Waits for the bundled archive to be written to the staging path.
    Staging,
    /// Waits for the staging file to be moved over the target.
    Committing,
    /// Waits for the staging file to be removed after a failed write.
    Discarding,
    /// Waits for the user to acknowledge the reported outcome.
    Reporting(Outcome),
    /// The run is over.
    Done,
}

/// What happened, as the program around the machine saw it.
#[derive(Clone, Copy, Debug, PartialEq, Eq, Structural)]
pub enum Event {
    /// The run begins.
    Begin,
    /// The executable's directory was found (`true`) or not.
    Located(bool),
    /// The target exists (`true`) or not.
    Probed(bool),
    /// The backup copy succeeded (`true`) or failed.
    BackedUp(bool),
    /// The staging file was written in full (`true`) or not.
    Staged(bool),
    /// The staging file replaced the target (`true`) or not.
    Committed(bool),
    /// The staging file is gone, or its removal failed: either way the run goes on.
    Discarded,
    /// The user acknowledged the report.
    Acknowledged,
}

/// What the program around the machine is to do next.
#[derive(Clone, Copy, Debug, PartialEq, Eq, Structural)]
pub enum Action {
    /// Find the directory of the running executable.
    Locate,
    /// Find out whether the target exists.
    Probe,
    /// Copy the target, byte for byte, to the backup path, replacing any backup.
    BackUp,
    /// Write the bundled archive in full to the staging path.
    Stage,
    /// Move the staging file over the target.
    Commit,
    /// Remove the staging file.
    Discard,
    /// Tell the user the outcome and wait for an acknowledgment.
    Report(Outcome),
    /// End the process with this status.
    Exit(i32),
}

/// The event that `phase` waits for.
pub open spec fn expects_spec(phase: Phase, event: Event) -> bool {
    match (phase, event) {
        (Phase::Start, Event::Begin) => true,
        (Phase::Locating, Event::Located(_)) => true,
        (Phase::Probing, Event::Probed(_)) => true,
        (Phase::BackingUp, Event::BackedUp(_)) => true,
        (Phase::Staging, Event::Staged(_)) => true,
        (Phase::Committing, Event::Committed(_)) => true,
        (Phase::Discarding, Event::Discarded) => true,
        (Phase::Reporting(_), Event::Acknowledged) => true,
        _ => false,
    }
}

/// Whether `phase` waits for `event`.
pub fn expects(phase: Phase, event: Event) -> (r: bool)
    ensures
        r == expects_spec(phase, event),
{
    match (phase, event) {
        (Phase::Start, Event::Begin) => true,
        (Phase::Locating, Event::Located(_)) => true,
        (Phase::Probing, Event::Probed(_)) => true,
        (Phase::BackingUp, Event::BackedUp(_)) => true,
        (Phase::Staging, Event::Staged(_)) => true,
        (Phase::Committing, Event::Committed(_)) => true,
        (Phase::Discarding, Event::Discarded) => true,
        (Phase::Reporting(_), Event::Acknowledged) => true,
        _ => false,
    }
}

/// The phase after a failure, and the action that starts reporting it.
pub open spec fn fail(e: PatchError) -> (Phase, Action) {
    (Phase::Reporting(Outcome::Failed(e)), Action::Report(Outcome::Failed(e)))
}

/// The transition table of a run.
pub open spec fn step_spec(phase: Phase, event: Event) -> (Phase, Action)
    recommends
        expects_spec(phase, event),
{
    match event {
        Event::Begin => (Phase::Locating, Action::Locate),
        Event::Located(found) => if found {
            (Phase::Probing, Action::Probe)
        } else {
            fail(PatchError::PathResolution)
        },
        Event::Probed(exists) => if exists {
            (Phase::BackingUp, Action::BackUp)
        } else {
            (Phase::Staging, Action::Stage)
        },
        Event::BackedUp(ok) => if ok {
            (Phase::Staging, Action::Stage)
        } else {
            fail(PatchError::Backup)
        },
        Event::Staged(ok) => if ok {
            (Phase::Committing, Action::Commit)
        } else {
            (Phase::Discarding, Action::Discard)
        },
        Event::Committed(ok) => if ok {
            (Phase::Reporting(Outcome::Patched), Action::Report(Outcome::Patched))
        } else {
            (Phase::Discarding, Action::Discard)
        },
        Event::Discarded => fail(PatchError::Write),
        Event::Acknowledged => match phase {
            Phase::Reporting(o) => (Phase::Done, Action::Exit(exit_code_of(o))),
            _ => (Phase::Done, Action::Exit(1)),
        },
    }
}

/// Takes the run from `phase` on `event`: the next phase, and the action to
/// perform now.
pub fn step(phase: Phase, event: Event) -> (r: (Phase, Action))
    requires
        expects_spec(phase, event),
    ensures
        r == step_spec(phase, event),
{
    match event {
        Event::Begin => (Phase::Locating, Action::Locate),
        Event::Located(found) => if found {
            (Phase::Probing, Action::Probe)
        } else {
            failure(PatchError::PathResolution)
        },
        Event::Probed(exists) => if exists {
            (Phase::BackingUp, Action::BackUp)
        } else {
            (Phase::Staging, Action::Stage)
        },
        Event::BackedUp(ok) => if ok {
            (Phase::Staging, Action::Stage)
        } else {
            failure(PatchError::Backup)
        },
        Event::Staged(ok) => if ok {
            (Phase::Committing, Action::Commit)
        } else {
            (Phase::Discarding, Action::Discard)
        },
        Event::Committed(ok) => if ok {
            (Phase::Reporting(Outcome::Patched), Action::Report(Outcome::Patched))
        } else {
            (Phase::Discarding, Action::Discard)
        },
        Event::Discarded => failure(PatchError::Write),
        Event::Acknowledged => match phase {
            Phase::Reporting(o) => (Phase::Done, Action::Exit(o.exit_code())),
            _ => (Phase::Done, Action::Exit(1)),
        },
    }
}

fn failure(e: PatchError) -> (r: (Phase, Action))
    ensures
        r == fail(e),
{
    (Phase::Reporting(Outcome::Failed(e)), Action::Report(Outcome::Failed(e)))
}

} // verus!
