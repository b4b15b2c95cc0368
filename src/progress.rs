//! The hooks through which a scan reports its progress.
use vstd::prelude::*;

verus! {

/// Receives the progress of a scan. The reports are advisory: an error in
/// one says that the display failed, not the scan.
pub trait ProgressReport {
    fn set_remaining_dirs(&mut self, remaining_dirs: usize) -> Result<(), String>;

    fn set_collected_files(&mut self, collected_files: usize) -> Result<(), String>;

    fn set_current_dir(&mut self, dir: &str) -> Result<(), String>;

    fn set_current_file(&mut self, file: &str) -> Result<(), String>;

    fn flush(&mut self) -> Result<(), String>;
}

/// Progress reporting that shows nothing.
pub struct NoopProgressReport;

impl ProgressReport for NoopProgressReport {
    fn set_remaining_dirs(&mut self, _remaining_dirs: usize) -> (r: Result<(), String>)
        ensures
            r is Ok,
    {
        Ok(())
    }

    fn set_collected_files(&mut self, _collected_files: usize) -> (r: Result<(), String>)
        ensures
            r is Ok,
    {
        Ok(())
    }

    fn set_current_dir(&mut self, _dir: &str) -> (r: Result<(), String>)
        ensures
            r is Ok,
    {
        Ok(())
    }

    fn set_current_file(&mut self, _file: &str) -> (r: Result<(), String>)
        ensures
            r is Ok,
    {
        Ok(())
    }

    fn flush(&mut self) -> (r: Result<(), String>)
        ensures
            r is Ok,
    {
        Ok(())
    }
}

} // verus!
