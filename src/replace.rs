//! The crash-safe replacement of an installed binary, as a state machine that
//! names each filesystem step; the caller performs the step and reports
//! whether it succeeded.
//!
//! The steps: copy the installed binary to a backup path (when there is one),
//! clear a stale temporary file, write the new bytes to a temporary path in
//! the same directory, mark it executable, rename it onto the installed path,
//! and remove the backup. A model of the three paths shows that the installed
//! path only ever holds the old bytes or the new ones, that once it holds the
//! new ones it keeps them, that a failure before the rename leaves the old
//! bytes in place, and that a replacement which finishes leaves the new bytes
//! executable at the installed path and no file at the backup or temporary
//! path.
use vstd::prelude::*;
use crate::error::{ReplaceFailure, UpdateError};

verus! {

/// The step that a replacement is at.
#[derive(Clone, Copy, Debug, PartialEq, Eq)]
pub enum Stage {
    BackingUp,
    ClearingTemp,
    WritingTemp,
    MarkingExecutable,
    Renaming,
    CleaningUp,
    /// The new binary is in place and no backup or temporary file remains.
    Done,
    Failed(ReplaceFailure),
}

/// The filesystem operation that a stage asks for.
#[derive(Clone, Copy, Debug, PartialEq, Eq)]
pub enum FsAction {
    /// Copy the installed binary to the backup path.
    CopyTargetToBackup,
    /// Remove a file left at the temporary path, if any; failure is ignored,
    /// as the write that follows replaces such a file.
    RemoveTemp,
    /// Write the new bytes to the temporary path.
    WriteTemp,
    /// Set the executable permission bits of the temporary file (a success
    /// where the platform has none).
    MarkTempExecutable,
    /// Rename the temporary file onto the installed path, atomically.
    RenameTempOntoTarget,
    /// Remove the file at the backup path, if any.
    RemoveBackup,
    /// Nothing is left to do.
    Stop,
}

/// The contents of the installed, backup and temporary paths (`None` where
/// no file is), and whether the installed and the temporary file may be run.
pub struct Files {
    pub target: Option<Seq<u8>>,
    pub target_executable: bool,
    pub backup: Option<Seq<u8>>,
    pub temp: Option<Seq<u8>>,
    pub temp_executable: bool,
}

/// The first stage: a backup is made only of a binary that exists.
pub open spec fn first_stage(target_exists: bool) -> Stage {
    if target_exists {
        Stage::BackingUp
    } else {
        Stage::ClearingTemp
    }
}

/// The operation that a stage asks for.
pub open spec fn action_of(s: Stage) -> FsAction {
    match s {
        Stage::BackingUp => FsAction::CopyTargetToBackup,
        Stage::ClearingTemp => FsAction::RemoveTemp,
        Stage::WritingTemp => FsAction::WriteTemp,
        Stage::MarkingExecutable => FsAction::MarkTempExecutable,
        Stage::Renaming => FsAction::RenameTempOntoTarget,
        Stage::CleaningUp => FsAction::RemoveBackup,
        Stage::Done => FsAction::Stop,
        Stage::Failed(_) => FsAction::Stop,
    }
}

/// The stage after the current one's operation succeeded (`ok`) or failed.
pub open spec fn next_stage(s: Stage, ok: bool) -> Stage {
    match s {
        Stage::BackingUp => if ok {
            Stage::ClearingTemp
        } else {
            Stage::Failed(ReplaceFailure::Backup)
        },
        Stage::ClearingTemp => Stage::WritingTemp,
        Stage::WritingTemp => if ok {
            Stage::MarkingExecutable
        } else {
            Stage::Failed(ReplaceFailure::WriteTemp)
        },
        Stage::MarkingExecutable => if ok {
            Stage::Renaming
        } else {
            Stage::Failed(ReplaceFailure::Permissions)
        },
        Stage::Renaming => if ok {
            Stage::CleaningUp
        } else {
            Stage::Failed(ReplaceFailure::Rename)
        },
        Stage::CleaningUp => if ok {
            Stage::Done
        } else {
            Stage::Failed(ReplaceFailure::Cleanup)
        },
        Stage::Done => s,
        Stage::Failed(_) => s,
    }
}

/// Whether the rename has happened by stage `s`: the new binary is in place.
pub open spec fn renamed(s: Stage) -> bool {
    s is CleaningUp || s is Done || s == Stage::Failed(ReplaceFailure::Cleanup)
}

/// The stage reached from the start after the operations with the outcomes
/// `oks`.
pub open spec fn stage_after(target_exists: bool, oks: Seq<bool>) -> Stage
    decreases oks.len(),
{
    if oks.len() == 0 {
        first_stage(target_exists)
    } else {
        next_stage(stage_after(target_exists, oks.drop_last()), oks.last())
    }
}

/// What an operation may do to the three paths. A failed copy or write may
/// leave anything at the path it was writing, and a write leaves the
/// temporary file's permissions open; a rename either moves the temporary
/// file, with its permissions, onto the installed path or changes nothing; no
/// operation touches a path it does not name.
pub open spec fn effect(action: FsAction, ok: bool, bytes: Seq<u8>, pre: Files, post: Files) -> bool {
    match action {
        FsAction::CopyTargetToBackup => {
            &&& post.target == pre.target
            &&& post.target_executable == pre.target_executable
            &&& post.temp == pre.temp
            &&& post.temp_executable == pre.temp_executable
            &&& ok ==> post.backup == pre.target
        },
        FsAction::RemoveTemp => {
            &&& post.target == pre.target
            &&& post.target_executable == pre.target_executable
            &&& post.backup == pre.backup
            &&& if ok {
                post.temp is None
            } else {
                post.temp == pre.temp && post.temp_executable == pre.temp_executable
            }
        },
        FsAction::WriteTemp => {
            &&& post.target == pre.target
            &&& post.target_executable == pre.target_executable
            &&& post.backup == pre.backup
            &&& ok ==> post.temp == Some(bytes)
        },
        FsAction::MarkTempExecutable => if ok {
            post == (Files { temp_executable: true, ..pre })
        } else {
            post == pre
        },
        FsAction::RenameTempOntoTarget => if ok {
            &&& pre.temp is Some
            &&& post == (Files {
                target: pre.temp,
                target_executable: pre.temp_executable,
                temp: None,
                ..pre
            })
        } else {
            post == pre
        },
        FsAction::RemoveBackup => {
            &&& post.target == pre.target
            &&& post.target_executable == pre.target_executable
            &&& post.temp == pre.temp
            &&& post.temp_executable == pre.temp_executable
            &&& if ok {
                post.backup is None
            } else {
                post.backup == pre.backup
            }
        },
        FsAction::Stop => post == pre,
    }
}

/// `files` are the contents of the three paths before and after each
/// operation of a replacement that writes `bytes`, with the outcomes `oks`.
pub open spec fn is_run(files: Seq<Files>, oks: Seq<bool>, bytes: Seq<u8>) -> bool {
    &&& files.len() == oks.len() + 1
    &&& forall|i: int|
        0 <= i < oks.len() ==> effect(
            action_of(stage_after(files[0].target is Some, oks.take(i))),
            #[trigger] oks[i],
            bytes,
            files[i],
            files[i + 1],
        )
}

/// What holds of the paths at each stage, against their contents at the
/// start: before the rename the installed file is untouched; after it, the
/// installed file holds the new bytes and may be run, and no temporary file
/// is left.
pub open spec fn holds_at(s: Stage, start: Files, now: Files, bytes: Seq<u8>) -> bool {
    if renamed(s) {
        &&& now.target == Some(bytes)
        &&& now.target_executable
        &&& now.temp is None
        &&& s is Done ==> now.backup is None
    } else {
        &&& now.target == start.target
        &&& now.target_executable == start.target_executable
        &&& (s is MarkingExecutable || s is Renaming) ==> now.temp == Some(bytes)
        &&& s is Renaming ==> now.temp_executable
    }
}

proof fn lemma_step(s: Stage, ok: bool, start: Files, pre: Files, post: Files, bytes: Seq<u8>)
    requires
        holds_at(s, start, pre, bytes),
        effect(action_of(s), ok, bytes, pre, post),
    ensures
        holds_at(next_stage(s, ok), start, post, bytes),
{
}

/// What `holds_at` states holds after every operation of a replacement.
pub proof fn lemma_holds_through(files: Seq<Files>, oks: Seq<bool>, bytes: Seq<u8>, n: int)
    requires
        is_run(files, oks, bytes),
        0 <= n <= oks.len(),
    ensures
        holds_at(stage_after(files[0].target is Some, oks.take(n)), files[0], files[n], bytes),
    decreases n,
{
    let te = files[0].target is Some;
    if n > 0 {
        lemma_holds_through(files, oks, bytes, n - 1);
        assert(oks.take(n).drop_last() == oks.take(n - 1));
        assert(oks.take(n).last() == oks[n - 1]);
        assert(effect(
            action_of(stage_after(te, oks.take(n - 1))),
            oks[n - 1],
            bytes,
            files[n - 1],
            files[n],
        ));
        lemma_step(stage_after(te, oks.take(n - 1)), oks[n - 1], files[0], files[n - 1], files[n], bytes);
    } else {
        assert(oks.take(0).len() == 0);
    }
}

/// Once the rename has happened it stays done.
proof fn lemma_renamed_stays(te: bool, oks: Seq<bool>, i: int, j: int)
    requires
        0 <= i <= j <= oks.len(),
        renamed(stage_after(te, oks.take(i))),
    ensures
        renamed(stage_after(te, oks.take(j))),
    decreases j - i,
{
    if i < j {
        lemma_renamed_stays(te, oks, i, j - 1);
        assert(oks.take(j).drop_last() == oks.take(j - 1));
    }
}

/// At every point of a replacement the installed path holds either the old
/// binary or the complete new one, never a partial write; once it holds new
/// bytes that differ from the old ones it keeps them; and a replacement that
/// fails before or at the rename leaves the old binary in place.
pub proof fn lemma_replacement_atomic(files: Seq<Files>, oks: Seq<bool>, bytes: Seq<u8>)
    requires
        is_run(files, oks, bytes),
    ensures
        forall|i: int|
            0 <= i < files.len() ==> #[trigger] files[i].target == files[0].target
                || files[i].target == Some(bytes),
        forall|i: int, j: int|
            0 <= i <= j < files.len() && #[trigger] files[i].target != files[0].target
                ==> #[trigger] files[j].target == Some(bytes),
        stage_after(files[0].target is Some, oks) matches Stage::Failed(f) && f
            != ReplaceFailure::Cleanup ==> files.last().target == files[0].target,
{
    let te = files[0].target is Some;
    assert forall|i: int| 0 <= i < files.len() implies #[trigger] files[i].target
        == files[0].target || files[i].target == Some(bytes) by {
        lemma_holds_through(files, oks, bytes, i);
    }
    assert forall|i: int, j: int|
        0 <= i <= j < files.len() && #[trigger] files[i].target != files[0].target
            implies #[trigger] files[j].target == Some(bytes) by {
        lemma_holds_through(files, oks, bytes, i);
        lemma_renamed_stays(te, oks, i, j);
        lemma_holds_through(files, oks, bytes, j);
    }
    lemma_holds_through(files, oks, bytes, oks.len() as int);
    assert(oks.take(oks.len() as int) == oks);
}

/// A replacement that finishes leaves the new binary, executable, at the
/// installed path and no file at the backup or temporary path.
pub proof fn lemma_success_leaves_no_siblings(files: Seq<Files>, oks: Seq<bool>, bytes: Seq<u8>)
    requires
        is_run(files, oks, bytes),
        stage_after(files[0].target is Some, oks) is Done,
    ensures
        files.last().target == Some(bytes),
        files.last().target_executable,
        files.last().backup is None,
        files.last().temp is None,
{
    lemma_holds_through(files, oks, bytes, oks.len() as int);
    assert(oks.take(oks.len() as int) == oks);
}

impl Stage {
    /// The first stage of a replacement of the binary at a path where a file
    /// exists or not.
    pub fn begin(target_exists: bool) -> (s: Stage)
        ensures
            s == first_stage(target_exists),
    {
        if target_exists {
            Stage::BackingUp
        } else {
            Stage::ClearingTemp
        }
    }

    /// The operation to perform next.
    pub fn action(&self) -> (a: FsAction)
        ensures
            a == action_of(*self),
    {
        match self {
            Stage::BackingUp => FsAction::CopyTargetToBackup,
            Stage::ClearingTemp => FsAction::RemoveTemp,
            Stage::WritingTemp => FsAction::WriteTemp,
            Stage::MarkingExecutable => FsAction::MarkTempExecutable,
            Stage::Renaming => FsAction::RenameTempOntoTarget,
            Stage::CleaningUp => FsAction::RemoveBackup,
            Stage::Done => FsAction::Stop,
            Stage::Failed(_) => FsAction::Stop,
        }
    }

    /// The stage after the current operation succeeded (`ok`) or failed.
    pub fn advance(self, ok: bool) -> (s: Stage)
        ensures
            s == next_stage(self, ok),
    {
        match self {
            Stage::BackingUp => if ok {
                Stage::ClearingTemp
            } else {
                Stage::Failed(ReplaceFailure::Backup)
            },
            Stage::ClearingTemp => Stage::WritingTemp,
            Stage::WritingTemp => if ok {
                Stage::MarkingExecutable
            } else {
                Stage::Failed(ReplaceFailure::WriteTemp)
            },
            Stage::MarkingExecutable => if ok {
                Stage::Renaming
            } else {
                Stage::Failed(ReplaceFailure::Permissions)
            },
            Stage::Renaming => if ok {
                Stage::CleaningUp
            } else {
                Stage::Failed(ReplaceFailure::Rename)
            },
            Stage::CleaningUp => if ok {
                Stage::Done
            } else {
                Stage::Failed(ReplaceFailure::Cleanup)
            },
            Stage::Done => Stage::Done,
            Stage::Failed(f) => Stage::Failed(f),
        }
    }

    /// How a finished replacement ended: `Ok`, or the step that failed;
    /// `None` while steps remain.
    pub fn outcome(self) -> (r: Option<Result<(), UpdateError>>)
        ensures
            self is Done ==> r == Some(Ok::<(), UpdateError>(())),
            self matches Stage::Failed(f) ==> r == Some(Err::<(), UpdateError>(UpdateError::Io(f))),
            action_of(self) != FsAction::Stop ==> r is None,
    {
        match self {
            Stage::Done => Some(Ok(())),
            Stage::Failed(f) => Some(Err(UpdateError::Io(f))),
            _ => None,
        }
    }
}

} // verus!
