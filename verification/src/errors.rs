//! File-level errors and the chained error report.
//!
//! Every failure of one file's pipeline is one of these variants; whether it
//! aborts the run or is only logged is the caller's halt-on-errors decision.
//! A report carries a primary message plus an ordered list of causes and is
//! rendered top-to-bottom at the reporting boundary.

use vstd::prelude::*;
use vstd::string::*;
use crate::text::concat_str;

verus! {

/// A failure of one file's relocation pipeline. The file that failed is left
/// entirely untouched at its original location.
#[derive(Clone, Copy, Debug, PartialEq, Eq, Structural)]
pub enum FileError {
    /// The source file could not be opened.
    Unopenable,
    /// The metadata container could not be read.
    MetadataUnreadable,
    /// The original-capture timestamp field is absent.
    TimestampMissing,
    /// The size of the source or destination file could not be read.
    SizeUnreadable,
    /// The destination directory could not be created.
    CreateDirFailed,
    /// The rename onto the absent destination failed.
    RenameFailed,
    /// Deleting the duplicate source file failed.
    RemoveFailed,
    /// Moving the duplicate source file to the system trash failed.
    TrashFailed,
}

/// The message of a file-level error, with the source and destination paths
/// the failing step was working on.
pub fn file_error_message(e: &FileError, source: &str, dest: &str) -> (r: String)
    ensures
        *e == FileError::Unopenable ==> r@ == "Unable to open '"@ + source@ + "'."@,
        *e == FileError::MetadataUnreadable ==> r@ == "Unable to read EXIF metadata of '"@
            + source@ + "'."@,
        *e == FileError::TimestampMissing ==> r@ == "Timestamp metadata missing in '"@ + source@
            + "'."@,
        *e == FileError::SizeUnreadable ==> r@ == "Unable to read size of '"@ + source@ + "'."@,
        *e == FileError::CreateDirFailed ==> r@ == "Unable to create destination folder '"@ + dest@
            + "'."@,
        *e == FileError::RenameFailed ==> r@ == "Unable to move "@ + source@ + " to "@ + dest@
            + "."@,
        *e == FileError::RemoveFailed || *e == FileError::TrashFailed ==> r@ == "Failed to remove "@
            + source@ + "."@,
{
    match e {
        FileError::Unopenable => {
            let r = concat_str("Unable to open '", source);
            let r = r.concat("'.");
            proof {
                assert(("Unable to open '"@ + source@) + "'."@ =~= "Unable to open '"@ + source@
                    + "'."@);
            }
            r
        },
        FileError::MetadataUnreadable => {
            let r = concat_str("Unable to read EXIF metadata of '", source);
            let r = r.concat("'.");
            proof {
                assert(("Unable to read EXIF metadata of '"@ + source@) + "'."@
                    =~= "Unable to read EXIF metadata of '"@ + source@ + "'."@);
            }
            r
        },
        FileError::TimestampMissing => {
            let r = concat_str("Timestamp metadata missing in '", source);
            let r = r.concat("'.");
            proof {
                assert(("Timestamp metadata missing in '"@ + source@) + "'."@
                    =~= "Timestamp metadata missing in '"@ + source@ + "'."@);
            }
            r
        },
        FileError::SizeUnreadable => {
            let r = concat_str("Unable to read size of '", source);
            let r = r.concat("'.");
            proof {
                assert(("Unable to read size of '"@ + source@) + "'."@
                    =~= "Unable to read size of '"@ + source@ + "'."@);
            }
            r
        },
        FileError::CreateDirFailed => {
            let r = concat_str("Unable to create destination folder '", dest);
            let r = r.concat("'.");
            proof {
                assert(("Unable to create destination folder '"@ + dest@) + "'."@
                    =~= "Unable to create destination folder '"@ + dest@ + "'."@);
            }
            r
        },
        FileError::RenameFailed => {
            let r = concat_str("Unable to move ", source);
            let r = r.concat(" to ");
            let r = r.concat(dest);
            let r = r.concat(".");
            proof {
                assert(((("Unable to move "@ + source@) + " to "@) + dest@) + "."@
                    =~= "Unable to move "@ + source@ + " to "@ + dest@ + "."@);
            }
            r
        },
        FileError::RemoveFailed => {
            let r = concat_str("Failed to remove ", source);
            let r = r.concat(".");
            proof {
                assert(("Failed to remove "@ + source@) + "."@ =~= "Failed to remove "@ + source@
                    + "."@);
            }
            r
        },
        FileError::TrashFailed => {
            let r = concat_str("Failed to remove ", source);
            let r = r.concat(".");
            proof {
                assert(("Failed to remove "@ + source@) + "."@ =~= "Failed to remove "@ + source@
                    + "."@);
            }
            r
        },
    }
}

/// An error report: a primary message and the ordered chain of causes behind
/// it, outermost first.
pub struct ErrorChain {
    pub message: String,
    pub causes: Vec<String>,
}

impl ErrorChain {
    pub fn new(message: String) -> (r: ErrorChain)
        ensures
            r.message@ == message@,
            r.causes@ =~= Seq::<String>::empty(),
    {
        ErrorChain { message, causes: Vec::new() }
    }

    /// Records one more underlying cause, behind those already recorded.
    pub fn push_cause(&mut self, cause: String)
        ensures
            final(self).message == old(self).message,
            final(self).causes@ == old(self).causes@.push(cause),
    {
        self.causes.push(cause);
    }

    /// The report as lines, top-to-bottom: the primary message first, then
    /// each cause in order.
    pub fn render_lines(&self) -> (r: Vec<String>)
        ensures
            r@.len() == 1 + self.causes@.len(),
            r@[0]@ == self.message@,
            forall|i: int| 0 <= i < self.causes@.len() ==> r@[i + 1]@ == self.causes@[i]@,
    {
        let mut r: Vec<String> = Vec::new();
        r.push(self.message.clone());
        let mut i: usize = 0;
        while i < self.causes.len()
            invariant
                i <= self.causes@.len(),
                r@.len() == 1 + i,
                r@[0]@ == self.message@,
                forall|j: int| 0 <= j < i ==> r@[j + 1]@ == self.causes@[j]@,
            decreases self.causes@.len() - i,
        {
            r.push(self.causes[i].clone());
            i = i + 1;
        }
        r
    }
}

} // verus!
