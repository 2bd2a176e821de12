//! The error taxonomy: every fault is surfaced as a distinct kind carrying
//! the offending path or the index identity, plus the underlying cause.

use crate::directory::WriterDirectory;
use vstd::prelude::*;

verus! {

/// The part of an operating-system error's kind that this crate's decisions
/// read. `NotFound` marks the benign already-gone races; everything else is
/// kept only to be reported.
#[derive(Clone, Copy, Debug, PartialEq, Eq, Structural)]
pub enum IoKind {
    NotFound,
    PermissionDenied,
    Other,
}

/// An operating-system failure, reduced to the kind the teardown logic
/// branches on and the message handed back to callers.
#[derive(Debug)]
pub struct IoCause {
    pub kind: IoKind,
    pub message: String,
}

impl Clone for IoCause {
    fn clone(&self) -> (r: Self)
        ensures
            r == *self,
    {
        IoCause { kind: self.kind, message: self.message.clone() }
    }
}

/// Every way an operation of this crate can fail. Path-carrying variants name
/// the offending filesystem path; identity-carrying variants name the index,
/// so callers can disambiguate without losing diagnostic context.
#[derive(Debug)]
pub enum SearchDirectoryError {
    /// A directory or one of its entries could not be read during teardown.
    ReadDirectoryEntry(String, IoCause),
    /// The metadata file's contents did not decode into the requested value.
    IndexDeserialize(WriterDirectory, String),
    /// The metadata file could not be read.
    IndexFileRead(WriterDirectory, IoCause),
    /// The caller's value could not be encoded.
    IndexSerialize(WriterDirectory, String),
    /// The metadata file could not be created.
    IndexFileCreate(WriterDirectory, IoCause),
    /// The encoded metadata could not be written out.
    IndexFileWrite(WriterDirectory, IoCause),
    /// The written metadata could not be flushed to its destination.
    IndexFileFlush(WriterDirectory, IoCause),
    /// A missing ancestor directory could not be created.
    CreateDirectory(String, IoCause),
    /// A directory could not be removed for a reason that is neither
    /// "already gone" nor "not empty"; carries a diagnostic listing of the
    /// files still present under it.
    RemoveDirectory(String, IoCause, Vec<String>),
    /// A regular file could not be removed, and it had not already vanished.
    RemoveFile(String, IoCause),
    /// A regular file could not be opened for locking before removal, and it
    /// had not already vanished.
    OpenFileForRemoval(String, IoCause),
    /// The exclusive lock taken before removal could not be acquired.
    LockFileForRemoval(String, IoCause),
}

} // verus!
