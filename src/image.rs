//! A picture found by the scan, with the timestamp that places it.
use crate::date_time::SortedDayTime;
use crate::resolver::{MetadataFields, resolve, resolved};
use vstd::prelude::*;

verus! {

/// A picture to transfer: its path and its resolved timestamp.
pub struct CopyImage {
    pub source: String,
    pub date_time: SortedDayTime,
}

/// Why a file was skipped or a transfer failed.
pub struct ReadError {
    pub msg: String,
}

impl ReadError {
    pub fn new(msg: &str) -> (r: ReadError)
        ensures
            r.msg@ == msg@,
    {
        ReadError { msg: String::from_str(msg) }
    }
}

impl CopyImage {
    /// The picture at `path` placed by the timestamp resolved from its
    /// metadata; an error where no date field gives a usable timestamp.
    pub fn from_metadata(path: String, fields: &MetadataFields) -> (r: Result<CopyImage, ReadError>)
        ensures
            r is Ok <==> resolved(fields) is Some,
            r matches Ok(image) ==> image.source == path && Some(image.date_time) == resolved(
                fields,
            ),
    {
        match resolve(fields) {
            Some(sdt) => Ok(CopyImage { source: path, date_time: sdt }),
            None => Err(ReadError::new("No Date Time in file")),
        }
    }
}

} // verus!
