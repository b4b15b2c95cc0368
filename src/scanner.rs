//! The breadth-first scan of the source tree.
//!
//! The scanner holds the directories still to visit and the pictures found
//! so far. The caller lists each directory that `next_dir` hands out and
//! reports each entry back: a subdirectory through `found_dir`, a picture
//! with its metadata through `found_image`.
use crate::image::CopyImage;
use crate::paths::{file_name_spec, file_name_of, find_last, last_index_of, lemma_last_index_of};
use crate::resolver::{MetadataFields, lemma_no_valid_field_no_timestamp, resolved};
use std::collections::VecDeque;
use vstd::prelude::*;

verus! {

/// The extension of a file name: the text after its last `.`, where that
/// `.` is not the name's first character.
pub open spec fn extension_spec(name: Seq<char>) -> Option<Seq<char>> {
    let k = last_index_of(name, '.');
    if k > 0 {
        Some(name.subrange(k + 1, name.len() as int))
    } else {
        None
    }
}

pub open spec fn is_ascii_upper(c: char) -> bool {
    'A' <= c <= 'Z'
}

/// `c` equals the lower case letter `lower`, in either case.
pub open spec fn char_matches_lower(c: char, lower: char) -> bool {
    c == lower || (is_ascii_upper(c) && c as u32 + 32 == lower as u32)
}

/// `s` equals the lower case text `lower` with ASCII case ignored.
pub open spec fn matches_lower(s: Seq<char>, lower: Seq<char>) -> bool {
    s.len() == lower.len() && forall|i: int| 0 <= i < s.len() ==> char_matches_lower(s[i], lower[i])
}

/// The extensions of the pictures that the scan reads, in lower case.
pub open spec fn is_image_extension(ext: Seq<char>) -> bool {
    matches_lower(ext, "jpg"@) || matches_lower(ext, "jpeg"@) || matches_lower(ext, "heic"@)
}

/// A path whose file name has a picture's extension.
pub open spec fn is_image_path(path: Seq<char>) -> bool {
    file_name_spec(path) matches Some(name) && extension_spec(name) matches Some(ext)
        && is_image_extension(ext)
}

/// Whether `s` equals the lower case text `lower`, ASCII case ignored.
fn eq_ignore_case(s: &str, lower: &str) -> (r: bool)
    ensures
        r == matches_lower(s@, lower@),
{
    let n = s.unicode_len();
    if n != lower.unicode_len() {
        return false;
    }
    let mut i: usize = 0;
    while i < n
        invariant
            n == s@.len(),
            n == lower@.len(),
            i <= n,
            forall|j: int| 0 <= j < i ==> char_matches_lower(s@[j], lower@[j]),
        decreases n - i,
    {
        let c = s.get_char(i);
        let l = lower.get_char(i);
        if !(c == l || ('A' <= c && c <= 'Z' && (c as u32) + 32 == l as u32)) {
            return false;
        }
        i = i + 1;
    }
    true
}

/// Whether `path` names a file with a picture's extension (`jpg`, `jpeg` or
/// `heic`, in any case).
pub fn is_image_path_exec(path: &str) -> (r: bool)
    ensures
        r == is_image_path(path@),
{
    let name = match file_name_of(path) {
        Some(name) => name,
        None => return false,
    };
    proof {
        lemma_last_index_of(name@, '.');
    }
    let n = name.as_str().unicode_len();
    match find_last(name.as_str(), '.') {
        Some(k) => {
            if k == 0 {
                return false;
            }
            let ext = name.as_str().substring_char(k + 1, n);
            eq_ignore_case(ext, "jpg") || eq_ignore_case(ext, "jpeg") || eq_ignore_case(ext, "heic")
        },
        None => false,
    }
}

/// The found pictures after a file at `path` with metadata `fields` is
/// reported: it is added at the back where it has a picture's extension and
/// a usable timestamp.
pub open spec fn queued_after(files: Seq<CopyImage>, path: String, fields: &MetadataFields) -> Seq<
    CopyImage,
> {
    match resolved(fields) {
        Some(t) => if is_image_path(path@) {
            files.push(CopyImage { source: path, date_time: t })
        } else {
            files
        },
        None => files,
    }
}

/// A file whose date fields hold no valid timestamp is not queued: the
/// found pictures stay as they were, so where none of them had its path,
/// none has it afterwards.
pub proof fn lemma_undated_file_not_queued(
    files: Seq<CopyImage>,
    path: String,
    fields: &MetadataFields,
)
    requires
        forall|i: int| 0 <= i < 4 ==> #[trigger] fields.candidates()[i] is None,
    ensures
        queued_after(files, path, fields) == files,
        (forall|i: int| 0 <= i < files.len() ==> #[trigger] files[i].source@ != path@) ==> forall|
            i: int,
        |
            0 <= i < queued_after(files, path, fields).len() ==> #[trigger] queued_after(
                files,
                path,
                fields,
            )[i].source@ != path@,
{
    lemma_no_valid_field_no_timestamp(fields);
}

/// The state of a scan.
pub struct Scanner {
    pending: VecDeque<String>,
    files: VecDeque<CopyImage>,
    recursive: bool,
}

impl Scanner {
    /// The directories still to visit, front first.
    pub closed spec fn pending(&self) -> Seq<String> {
        self.pending@
    }

    /// The pictures found so far, in the order of discovery.
    pub closed spec fn files(&self) -> Seq<CopyImage> {
        self.files@
    }

    /// Whether subdirectories are visited.
    pub closed spec fn recursive(&self) -> bool {
        self.recursive
    }

    /// A scan of `root`; into its subdirectories as well where `recursive`.
    pub fn new(root: String, recursive: bool) -> (r: Scanner)
        ensures
            r.pending() == seq![root],
            r.files() == Seq::<CopyImage>::empty(),
            r.recursive() == recursive,
    {
        let mut pending: VecDeque<String> = VecDeque::new();
        pending.push_back(root);
        Scanner { pending, files: VecDeque::new(), recursive }
    }

    /// Whether no directory is left to visit: the end of the scan.
    pub fn is_done(&self) -> (r: bool)
        ensures
            r == (self.pending().len() == 0),
    {
        self.pending.len() == 0
    }

    /// How many directories are left to visit.
    pub fn remaining_dirs(&self) -> (r: usize)
        ensures
            r == self.pending().len(),
    {
        self.pending.len()
    }

    /// How many pictures have been found.
    pub fn collected_files(&self) -> (r: usize)
        ensures
            r == self.files().len(),
    {
        self.files.len()
    }

    /// Takes the next directory to visit off the front of the queue.
    pub fn next_dir(&mut self) -> (r: Option<String>)
        ensures
            old(self).pending().len() == 0 ==> r is None && final(self).pending() == old(
                self,
            ).pending(),
            old(self).pending().len() > 0 ==> r == Some(old(self).pending()[0])
                && final(self).pending() == old(self).pending().drop_first(),
            final(self).files() == old(self).files(),
            final(self).recursive() == old(self).recursive(),
    {
        self.pending.pop_front()
    }

    /// Reports a subdirectory of the directory being visited: it is queued
    /// at the back where the scan is recursive, and passed over otherwise.
    pub fn found_dir(&mut self, path: String)
        ensures
            final(self).pending() == (if old(self).recursive() {
                old(self).pending().push(path)
            } else {
                old(self).pending()
            }),
            final(self).files() == old(self).files(),
            final(self).recursive() == old(self).recursive(),
    {
        if self.recursive {
            self.pending.push_back(path);
        }
    }

    /// Reports a file and the date fields of its metadata: it is queued with
    /// its resolved timestamp where it has a picture's extension and a usable
    /// timestamp, and passed over otherwise.
    pub fn found_image(&mut self, path: String, fields: &MetadataFields)
        ensures
            final(self).files() == queued_after(old(self).files(), path, fields),
            final(self).pending() == old(self).pending(),
            final(self).recursive() == old(self).recursive(),
    {
        if !is_image_path_exec(path.as_str()) {
            return;
        }
        if let Ok(image) = CopyImage::from_metadata(path, fields) {
            self.files.push_back(image);
        }
    }

    /// The pictures found, in the order of discovery.
    pub fn into_files(self) -> (r: VecDeque<CopyImage>)
        ensures
            r@ == self.files(),
    {
        self.files
    }
}

} // verus!
