//! The transfer of each found picture: where it goes, whether it is copied,
//! moved, only reported or left alone, what follows a failed move, and
//! which emptied source directories a cleanup removes.
//!
//! The caller performs each step on disk and reports how it went.
use crate::cli::Cli;
use crate::image::{CopyImage, ReadError};
use crate::path_builder::{create_sub_path, destination_spec};
use crate::paths::{
    dir_spec, dir_text, file_name_of, file_name_spec, is_within, is_within_dir, parent_of,
    parent_spec,
};
use vstd::prelude::*;

verus! {

/// What the transfer of one file does on disk.
#[derive(Debug, Clone, Copy, PartialEq, Eq, Structural)]
pub enum TransferAction {
    /// The file is already where it belongs: nothing is done.
    Skip,
    /// Dry run: the copy is only reported.
    WouldCopy,
    /// Dry run: the move is only reported.
    WouldMove,
    /// The file is copied; the source stays.
    Copy,
    /// The file is renamed to its destination.
    Move,
}

/// The transfer of one file.
pub struct TransferPlan {
    pub source: String,
    pub destination: String,
    /// The directory to create, with its parents, before the transfer;
    /// `None` in a dry run.
    pub create_dir: Option<String>,
    pub action: TransferAction,
}

/// The action for a file at `source` bound for `destination`.
pub open spec fn action_spec(args: &Cli, source: Seq<char>, destination: Seq<char>) -> TransferAction {
    if source == destination {
        TransferAction::Skip
    } else if args.dry_run {
        if args.move_files {
            TransferAction::WouldMove
        } else {
            TransferAction::WouldCopy
        }
    } else if args.move_files {
        TransferAction::Move
    } else {
        TransferAction::Copy
    }
}

pub open spec fn opt_view(o: Option<String>) -> Option<Seq<char>> {
    match o {
        Some(s) => Some(s@),
        None => None,
    }
}

/// Plans the transfer of a found picture: its destination under the
/// destination root after the template, the directory to create unless in
/// a dry run, and the action. An error where the source path names no file.
pub fn plan_transfer(args: &Cli, image: &CopyImage) -> (r: Result<TransferPlan, ReadError>)
    ensures
        r is Err <==> file_name_spec(image.source@) is None,
        r matches Ok(plan) ==> {
            &&& plan.source == image.source
            &&& plan.destination@ == destination_spec(
                args.format@,
                args.destination_dir@,
                image.date_time,
                file_name_spec(image.source@)->Some_0,
            )
            &&& opt_view(plan.create_dir) == (if args.dry_run {
                None
            } else {
                parent_spec(plan.destination@)
            })
            &&& plan.action == action_spec(args, image.source@, plan.destination@)
        },
{
    let name = match file_name_of(image.source.as_str()) {
        Some(name) => name,
        None => return Err(ReadError::new("File has no filename")),
    };
    let destination = create_sub_path(
        args.format.as_str(),
        args.destination_dir.as_str(),
        &image.date_time,
        name.as_str(),
    );
    let create_dir = if args.dry_run {
        None
    } else {
        parent_of(destination.as_str())
    };
    let action = if image.source == destination {
        TransferAction::Skip
    } else if args.dry_run {
        if args.move_files {
            TransferAction::WouldMove
        } else {
            TransferAction::WouldCopy
        }
    } else if args.move_files {
        TransferAction::Move
    } else {
        TransferAction::Copy
    };
    Ok(TransferPlan { source: image.source.clone(), destination, create_dir, action })
}

/// How the transfer of one file ended.
#[derive(Debug, Clone, Copy, PartialEq, Eq, Structural)]
pub enum TransferOutcome {
    Moved,
    Copied,
    Skipped,
    /// Dry run: the action was reported and nothing changed.
    Reported,
    Failed,
}

/// What follows an attempt of a plan's action.
#[derive(Debug, Clone, Copy, PartialEq, Eq, Structural)]
pub enum NextStep {
    /// The transfer of this file is over.
    Finished(TransferOutcome),
    /// The move failed: the same file is copied to the same destination.
    RetryAsCopy,
    /// The move succeeded: the emptied source directories are cleaned up,
    /// and the file counts as moved.
    CleanUp,
}

/// What follows an attempt of `action`, given whether it succeeded. A
/// failed move falls back to a copy; a failed copy fails the file.
pub fn after_attempt(args: &Cli, action: TransferAction, succeeded: bool) -> (r: NextStep)
    ensures
        r == (match action {
            TransferAction::Skip => NextStep::Finished(TransferOutcome::Skipped),
            TransferAction::WouldCopy => NextStep::Finished(TransferOutcome::Reported),
            TransferAction::WouldMove => NextStep::Finished(TransferOutcome::Reported),
            TransferAction::Copy => NextStep::Finished(
                if succeeded {
                    TransferOutcome::Copied
                } else {
                    TransferOutcome::Failed
                },
            ),
            TransferAction::Move => if !succeeded {
                NextStep::RetryAsCopy
            } else if args.clean {
                NextStep::CleanUp
            } else {
                NextStep::Finished(TransferOutcome::Moved)
            },
        }),
{
    match action {
        TransferAction::Skip => NextStep::Finished(TransferOutcome::Skipped),
        TransferAction::WouldCopy => NextStep::Finished(TransferOutcome::Reported),
        TransferAction::WouldMove => NextStep::Finished(TransferOutcome::Reported),
        TransferAction::Copy => NextStep::Finished(
            if succeeded {
                TransferOutcome::Copied
            } else {
                TransferOutcome::Failed
            },
        ),
        TransferAction::Move => if !succeeded {
            NextStep::RetryAsCopy
        } else if args.clean {
            NextStep::CleanUp
        } else {
            NextStep::Finished(TransferOutcome::Moved)
        },
    }
}

/// The plan that takes over after a failed move: a copy of the same file to
/// the same destination, whose directory exists already.
pub fn fallback_to_copy(plan: &TransferPlan) -> (r: TransferPlan)
    ensures
        r.source == plan.source,
        r.destination == plan.destination,
        r.create_dir is None,
        r.action == TransferAction::Copy,
{
    TransferPlan {
        source: plan.source.clone(),
        destination: plan.destination.clone(),
        create_dir: None,
        action: TransferAction::Copy,
    }
}

/// The next step of the cleanup after a move.
pub enum CleanupStep {
    /// Remove this directory if it is empty.
    Remove(String),
    /// The cleanup is over.
    Stop,
    /// The directory reached does not lie in the scan root: the cleanup
    /// stops, and the inconsistency is reported.
    OutsideRoot,
}

/// How the removal of an empty directory went.
#[derive(Debug, Clone, Copy, PartialEq, Eq, Structural)]
pub enum RemoveOutcome {
    Removed,
    /// The directory was gone already, which counts as clean.
    NotFound,
    /// Not removed: not empty, or another error.
    Failed,
}

/// The cleanup step at directory `dir`: the scan root itself (with or
/// without a trailing `/`) is never
/// removed, a directory outside it is an inconsistency, any other directory
/// is removed if empty.
pub open spec fn cleanup_at_spec(root: Seq<char>, dir: Seq<char>) -> Option<bool> {
    if dir == dir_spec(root) {
        None
    } else if !is_within(root, dir) {
        Some(false)
    } else {
        Some(true)
    }
}

fn cleanup_at(root: &str, dir: String) -> (r: CleanupStep)
    ensures
        r matches CleanupStep::Remove(d) ==> d == dir && cleanup_at_spec(root@, dir@) == Some(
            true,
        ),
        r is OutsideRoot <==> cleanup_at_spec(root@, dir@) == Some(false),
        r is Stop <==> cleanup_at_spec(root@, dir@) is None,
{
    if dir_text(root) == dir {
        CleanupStep::Stop
    } else if !is_within_dir(root, dir.as_str()) {
        CleanupStep::OutsideRoot
    } else {
        CleanupStep::Remove(dir)
    }
}

/// The first step of the cleanup after the file at `source` was moved away
/// from the scan root `root`: the directory that held it.
pub fn cleanup_start(root: &str, source: &str) -> (r: CleanupStep)
    ensures
        r is Stop <==> parent_spec(source@) is None || parent_spec(source@) == Some(dir_spec(root@)),
        r is OutsideRoot <==> (parent_spec(source@) matches Some(p) && p != dir_spec(root@) && !is_within(
            root@,
            p,
        )),
        r matches CleanupStep::Remove(d) ==> parent_spec(source@) == Some(d@),
        r matches CleanupStep::Remove(d) ==> is_within(root@, d@) && d@ != dir_spec(root@),
{
    match parent_of(source) {
        Some(dir) => cleanup_at(root, dir),
        None => CleanupStep::Stop,
    }
}

/// The step that follows the removal attempt of `dir`: after a removal the
/// parent is next, up to but not including the scan root; a directory that
/// was gone already or could not be removed ends the cleanup.
pub fn cleanup_after(root: &str, dir: &str, outcome: RemoveOutcome) -> (r: CleanupStep)
    ensures
        outcome != RemoveOutcome::Removed ==> r is Stop,
        r matches CleanupStep::Remove(d) ==> {
            &&& outcome == RemoveOutcome::Removed
            &&& parent_spec(dir@) == Some(d@)
            &&& d@.len() < dir@.len()
            &&& is_within(root@, d@)
            &&& d@ != dir_spec(root@)
        },
        outcome == RemoveOutcome::Removed ==> (r is Stop <==> (parent_spec(dir@) is None
            || parent_spec(dir@) == Some(dir_spec(root@)) || parent_spec(dir@)->Some_0.len() >= dir@.len())),
        r is OutsideRoot <==> (outcome == RemoveOutcome::Removed && (parent_spec(dir@) matches Some(
            p,
        ) && p.len() < dir@.len() && p != dir_spec(root@) && !is_within(root@, p))),
{
    match outcome {
        RemoveOutcome::Removed => match parent_of(dir) {
            Some(parent) => if parent.as_str().unicode_len() < dir.unicode_len() {
                cleanup_at(root, parent)
            } else {
                CleanupStep::Stop
            },
            None => CleanupStep::Stop,
        },
        _ => CleanupStep::Stop,
    }
}

} // verus!
