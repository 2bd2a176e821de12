//! The metadata store: decides every step of saving and loading the
//! caller-supplied serialized value at the resolved metadata path.
//!
//! The filesystem and the encoder live outside this crate, so each operation
//! is an explicit machine: it hands the caller the next action to perform
//! (create the root directory, encode, create, write, flush, read, decode)
//! and consumes the outcome as an event. The machine fixes the order of the
//! stages, the exact paths they touch, and the error each failing stage maps
//! to; the caller performs the actions and nothing more.

use crate::directory::config_file_chars;
use crate::directory::index_root_chars;
use crate::directory::path_exists;
use crate::directory::SearchIndexConfigFilePath;
use crate::directory::SearchIndexDirPath;
use crate::directory::WriterDirectory;
use crate::errors::IoCause;
use crate::errors::SearchDirectoryError;
use vstd::prelude::*;

verus! {

/// Which stage of a save is awaited.
pub enum SavePhase {
    /// Waiting for the missing index root to be created.
    EnsureRoot,
    /// Waiting for the caller's value to be encoded.
    Serialize,
    /// Waiting for the metadata file to be created (truncating any old one).
    Create,
    /// Waiting for the encoded bytes to be written in full.
    Write,
    /// Waiting for the file to be flushed to its destination.
    Flush,
    /// The save is decided; no further event is accepted.
    Finished,
}

/// The next thing the caller must do for a save.
pub enum SaveAction {
    /// Create this directory and every missing ancestor.
    CreateDirAll(String),
    /// Encode the value being saved to its text form.
    Serialize,
    /// Create the file at this path, truncating any previous contents.
    CreateFile(String),
    /// Write the encoded text to the created file in full.
    WriteAll,
    /// Flush the file to its final destination.
    Flush,
    /// The save is decided: this is its result.
    Done(Result<(), SearchDirectoryError>),
}

/// The outcome of the action a save last asked for.
pub enum SaveEvent {
    DirCreated,
    DirCreateFailed(IoCause),
    Serialized,
    SerializeFailed(String),
    FileCreated,
    FileCreateFailed(IoCause),
    Written,
    WriteFailed(IoCause),
    Flushed,
    FlushFailed(IoCause),
}

/// Decides a save of the metadata value for one identity.
pub struct SaveMachine {
    pub directory: WriterDirectory,
    pub phase: SavePhase,
}

impl SaveMachine {
    /// Which events answer the awaited stage.
    pub open spec fn event_fits(self, e: SaveEvent) -> bool {
        match self.phase {
            SavePhase::EnsureRoot => e is DirCreated || e is DirCreateFailed,
            SavePhase::Serialize => e is Serialized || e is SerializeFailed,
            SavePhase::Create => e is FileCreated || e is FileCreateFailed,
            SavePhase::Write => e is Written || e is WriteFailed,
            SavePhase::Flush => e is Flushed || e is FlushFailed,
            SavePhase::Finished => false,
        }
    }

    /// The transition a save step makes: which stage follows which, the exact
    /// path each touches, and the distinct error of each failing stage.
    pub open spec fn step_rel(
        pre: SaveMachine,
        e: SaveEvent,
        post: SaveMachine,
        r: SaveAction,
    ) -> bool {
        post.directory == pre.directory && match (pre.phase, e) {
            (SavePhase::EnsureRoot, SaveEvent::DirCreated) => post.phase is Serialize
                && r is Serialize,
            (SavePhase::EnsureRoot, SaveEvent::DirCreateFailed(c)) => post.phase is Finished && (
            r matches SaveAction::Done(res) && res matches Err(
                SearchDirectoryError::CreateDirectory(p, cc),
            ) && p@ == index_root_chars(pre.directory) && cc == c),
            (SavePhase::Serialize, SaveEvent::Serialized) => post.phase is Create && (
            r matches SaveAction::CreateFile(p) && p@ == config_file_chars(pre.directory)),
            (SavePhase::Serialize, SaveEvent::SerializeFailed(m)) => post.phase is Finished && (
            r matches SaveAction::Done(res) && res matches Err(
                SearchDirectoryError::IndexSerialize(d, mm),
            ) && d == pre.directory && mm == m),
            (SavePhase::Create, SaveEvent::FileCreated) => post.phase is Write && r is WriteAll,
            (SavePhase::Create, SaveEvent::FileCreateFailed(c)) => post.phase is Finished && (
            r matches SaveAction::Done(res) && res matches Err(
                SearchDirectoryError::IndexFileCreate(d, cc),
            ) && d == pre.directory && cc == c),
            (SavePhase::Write, SaveEvent::Written) => post.phase is Flush && r is Flush,
            (SavePhase::Write, SaveEvent::WriteFailed(c)) => post.phase is Finished && (
            r matches SaveAction::Done(res) && res matches Err(
                SearchDirectoryError::IndexFileWrite(d, cc),
            ) && d == pre.directory && cc == c),
            (SavePhase::Flush, SaveEvent::Flushed) => post.phase is Finished && (
            r matches SaveAction::Done(res) && res is Ok),
            (SavePhase::Flush, SaveEvent::FlushFailed(c)) => post.phase is Finished && (
            r matches SaveAction::Done(res) && res matches Err(
                SearchDirectoryError::IndexFileFlush(d, cc),
            ) && d == pre.directory && cc == c),
            _ => false,
        }
    }

    /// Decides the opening of a save for `directory`, given whether its index
    /// root currently exists: a missing root is created first — directory
    /// creation is transitive up the tree, so the metadata file's parent
    /// exists before the file is created — and a present one goes straight
    /// to encoding.
    pub fn start_with(directory: &WriterDirectory, root_present: bool) -> (r: (
        SaveMachine,
        SaveAction,
    ))
        ensures
            r.0.directory == *directory,
            !root_present ==> r.0.phase is EnsureRoot && (
            r.1 matches SaveAction::CreateDirAll(p) && p@ == index_root_chars(*directory)),
            root_present ==> r.0.phase is Serialize && r.1 is Serialize,
    {
        if !root_present {
            let SearchIndexDirPath(root) = directory.search_index_dir_path();
            (
                SaveMachine { directory: directory.clone(), phase: SavePhase::EnsureRoot },
                SaveAction::CreateDirAll(root),
            )
        } else {
            (
                SaveMachine { directory: directory.clone(), phase: SavePhase::Serialize },
                SaveAction::Serialize,
            )
        }
    }

    /// Begins a save: checks the index root on disk and hands the answer to
    /// `start_with`.
    pub fn start(directory: &WriterDirectory) -> (r: (SaveMachine, SaveAction))
        ensures
            r.0.directory == *directory,
            (r.0.phase is EnsureRoot && (r.1 matches SaveAction::CreateDirAll(p) && p@
                == index_root_chars(*directory))) || (r.0.phase is Serialize
                && r.1 is Serialize),
    {
        let SearchIndexDirPath(root) = directory.search_index_dir_path();
        let present = path_exists(&root);
        Self::start_with(directory, present)
    }

    /// Consumes the outcome of the last action and decides the next one.
    pub fn step(&mut self, event: SaveEvent) -> (r: SaveAction)
        requires
            old(self).event_fits(event),
        ensures
            Self::step_rel(*old(self), event, *final(self), r),
    {
        match event {
            SaveEvent::DirCreated => {
                self.phase = SavePhase::Serialize;
                SaveAction::Serialize
            },
            SaveEvent::DirCreateFailed(c) => {
                self.phase = SavePhase::Finished;
                let SearchIndexDirPath(root) = self.directory.search_index_dir_path();
                SaveAction::Done(Err(SearchDirectoryError::CreateDirectory(root, c)))
            },
            SaveEvent::Serialized => {
                self.phase = SavePhase::Create;
                let SearchIndexConfigFilePath(p) = self.directory.search_index_config_file_path();
                SaveAction::CreateFile(p)
            },
            SaveEvent::SerializeFailed(m) => {
                self.phase = SavePhase::Finished;
                SaveAction::Done(
                    Err(SearchDirectoryError::IndexSerialize(self.directory.clone(), m)),
                )
            },
            SaveEvent::FileCreated => {
                self.phase = SavePhase::Write;
                SaveAction::WriteAll
            },
            SaveEvent::FileCreateFailed(c) => {
                self.phase = SavePhase::Finished;
                SaveAction::Done(
                    Err(SearchDirectoryError::IndexFileCreate(self.directory.clone(), c)),
                )
            },
            SaveEvent::Written => {
                self.phase = SavePhase::Flush;
                SaveAction::Flush
            },
            SaveEvent::WriteFailed(c) => {
                self.phase = SavePhase::Finished;
                SaveAction::Done(
                    Err(SearchDirectoryError::IndexFileWrite(self.directory.clone(), c)),
                )
            },
            SaveEvent::Flushed => {
                self.phase = SavePhase::Finished;
                SaveAction::Done(Ok(()))
            },
            SaveEvent::FlushFailed(c) => {
                self.phase = SavePhase::Finished;
                SaveAction::Done(
                    Err(SearchDirectoryError::IndexFileFlush(self.directory.clone(), c)),
                )
            },
        }
    }
}

/// Which stage of a load is awaited.
pub enum LoadPhase {
    /// Waiting for the missing index root to be created.
    EnsureRoot,
    /// Waiting for the metadata file's full contents.
    Read,
    /// Waiting for the contents to be decoded into the caller's type.
    Deserialize,
    /// The load is decided; no further event is accepted.
    Finished,
}

/// The next thing the caller must do for a load.
pub enum LoadAction {
    /// Create this directory and every missing ancestor.
    CreateDirAll(String),
    /// Read the full contents of the file at this path.
    ReadFile(String),
    /// Decode the contents just read into the caller's type.
    Deserialize,
    /// The load is decided: this is its result; on success the caller holds
    /// the decoded value.
    Done(Result<(), SearchDirectoryError>),
}

/// The outcome of the action a load last asked for.
pub enum LoadEvent {
    DirCreated,
    DirCreateFailed(IoCause),
    ReadOk,
    ReadFailed(IoCause),
    Deserialized,
    DeserializeFailed(String),
}

/// Decides a load of the metadata value for one identity.
pub struct LoadMachine {
    pub directory: WriterDirectory,
    pub phase: LoadPhase,
}

impl LoadMachine {
    /// Which events answer the awaited stage.
    pub open spec fn event_fits(self, e: LoadEvent) -> bool {
        match self.phase {
            LoadPhase::EnsureRoot => e is DirCreated || e is DirCreateFailed,
            LoadPhase::Read => e is ReadOk || e is ReadFailed,
            LoadPhase::Deserialize => e is Deserialized || e is DeserializeFailed,
            LoadPhase::Finished => false,
        }
    }

    /// The transition a load step makes.
    pub open spec fn step_rel(
        pre: LoadMachine,
        e: LoadEvent,
        post: LoadMachine,
        r: LoadAction,
    ) -> bool {
        post.directory == pre.directory && match (pre.phase, e) {
            (LoadPhase::EnsureRoot, LoadEvent::DirCreated) => post.phase is Read && (
            r matches LoadAction::ReadFile(p) && p@ == config_file_chars(pre.directory)),
            (LoadPhase::EnsureRoot, LoadEvent::DirCreateFailed(c)) => post.phase is Finished && (
            r matches LoadAction::Done(res) && res matches Err(
                SearchDirectoryError::CreateDirectory(p, cc),
            ) && p@ == index_root_chars(pre.directory) && cc == c),
            (LoadPhase::Read, LoadEvent::ReadOk) => post.phase is Deserialize
                && r is Deserialize,
            (LoadPhase::Read, LoadEvent::ReadFailed(c)) => post.phase is Finished && (
            r matches LoadAction::Done(res) && res matches Err(
                SearchDirectoryError::IndexFileRead(d, cc),
            ) && d == pre.directory && cc == c),
            (LoadPhase::Deserialize, LoadEvent::Deserialized) => post.phase is Finished && (
            r matches LoadAction::Done(res) && res is Ok),
            (LoadPhase::Deserialize, LoadEvent::DeserializeFailed(m)) => post.phase is Finished
                && (r matches LoadAction::Done(res) && res matches Err(
                SearchDirectoryError::IndexDeserialize(d, mm),
            ) && d == pre.directory && mm == m),
            _ => false,
        }
    }

    /// Decides the opening of a load for `directory`, given whether its
    /// index root currently exists. A first-time load on a freshly created
    /// identity must not fail for want of a parent directory, so a missing
    /// index root is created first; the read of a never-written metadata
    /// file still fails on its own.
    pub fn start_with(directory: &WriterDirectory, root_present: bool) -> (r: (
        LoadMachine,
        LoadAction,
    ))
        ensures
            r.0.directory == *directory,
            !root_present ==> r.0.phase is EnsureRoot && (
            r.1 matches LoadAction::CreateDirAll(p) && p@ == index_root_chars(*directory)),
            root_present ==> r.0.phase is Read && (r.1 matches LoadAction::ReadFile(p) && p@
                == config_file_chars(*directory)),
    {
        if !root_present {
            let SearchIndexDirPath(root) = directory.search_index_dir_path();
            (
                LoadMachine { directory: directory.clone(), phase: LoadPhase::EnsureRoot },
                LoadAction::CreateDirAll(root),
            )
        } else {
            let SearchIndexConfigFilePath(p) = directory.search_index_config_file_path();
            (
                LoadMachine { directory: directory.clone(), phase: LoadPhase::Read },
                LoadAction::ReadFile(p),
            )
        }
    }

    /// Begins a load: checks the index root on disk and hands the answer to
    /// `start_with`.
    pub fn start(directory: &WriterDirectory) -> (r: (LoadMachine, LoadAction))
        ensures
            r.0.directory == *directory,
            (r.0.phase is EnsureRoot && (r.1 matches LoadAction::CreateDirAll(p) && p@
                == index_root_chars(*directory))) || (r.0.phase is Read && (
            r.1 matches LoadAction::ReadFile(p) && p@ == config_file_chars(*directory))),
    {
        let SearchIndexDirPath(root) = directory.search_index_dir_path();
        let present = path_exists(&root);
        Self::start_with(directory, present)
    }

    /// Consumes the outcome of the last action and decides the next one.
    pub fn step(&mut self, event: LoadEvent) -> (r: LoadAction)
        requires
            old(self).event_fits(event),
        ensures
            Self::step_rel(*old(self), event, *final(self), r),
    {
        match event {
            LoadEvent::DirCreated => {
                self.phase = LoadPhase::Read;
                let SearchIndexConfigFilePath(p) = self.directory.search_index_config_file_path();
                LoadAction::ReadFile(p)
            },
            LoadEvent::DirCreateFailed(c) => {
                self.phase = LoadPhase::Finished;
                let SearchIndexDirPath(root) = self.directory.search_index_dir_path();
                LoadAction::Done(Err(SearchDirectoryError::CreateDirectory(root, c)))
            },
            LoadEvent::ReadOk => {
                self.phase = LoadPhase::Deserialize;
                LoadAction::Deserialize
            },
            LoadEvent::ReadFailed(c) => {
                self.phase = LoadPhase::Finished;
                LoadAction::Done(Err(SearchDirectoryError::IndexFileRead(self.directory.clone(), c)))
            },
            LoadEvent::Deserialized => {
                self.phase = LoadPhase::Finished;
                LoadAction::Done(Ok(()))
            },
            LoadEvent::DeserializeFailed(m) => {
                self.phase = LoadPhase::Finished;
                LoadAction::Done(
                    Err(SearchDirectoryError::IndexDeserialize(self.directory.clone(), m)),
                )
            },
        }
    }
}

} // verus!
