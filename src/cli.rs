//! The options of one run.
use crate::image::ReadError;
use vstd::prelude::*;

verus! {

/// What one run sorts, from where to where, and how.
pub struct Cli {
    /// The directory the pictures are read from, the scan root.
    pub source_dir: String,
    /// The directory the pictures are written under.
    pub destination_dir: String,
    /// Move the pictures instead of copying them.
    pub move_files: bool,
    /// Read the pictures in subdirectories too.
    pub recursive: bool,
    /// Report in detail.
    pub verbose: bool,
    /// Change nothing on disk; only report what would be done.
    pub dry_run: bool,
    /// After a move, remove the source directories that it left empty.
    pub clean: bool,
    /// Show the progress of the scan.
    pub progress: bool,
    /// The template of the path under the destination directory.
    pub format: String,
}

/// The setup of the destination directory, from whether something exists
/// at its path and whether that is a directory: `Ok(true)` where it must be
/// created, `Ok(false)` where nothing is to be done (it is a directory
/// already, or the run is dry), and an error where something other than a
/// directory stands in its place.
pub fn prepare_target_dir(args: &Cli, exists: bool, is_dir: bool) -> (r: Result<bool, ReadError>)
    ensures
        r is Err <==> (!args.dry_run && exists && !is_dir),
        r matches Ok(create) ==> create == (!args.dry_run && !exists),
{
    if args.dry_run {
        return Ok(false);
    }
    if !exists {
        return Ok(true);
    }
    if is_dir {
        Ok(false)
    } else {
        Err(ReadError::new("destination exists and is not a directory"))
    }
}

} // verus!
