//! Index identity and the pure resolution of its on-disk paths.
//!
//! Two independent processes that hold identities with equal fields must
//! address the same storage tree, so every path here is a pure function of
//! the identity — never of the clock, the process, or anything random. The
//! one exception is the transfer-pipe file, deliberately namespaced by the
//! calling process's numeric identifier, which the caller passes in.

use crate::digits::spec_decimal;
use crate::digits::u32_to_decimal;
use crate::errors::SearchDirectoryError;
use vstd::prelude::*;
use vstd::string::StringExecFns;

verus! {

/// Identity values the host process resolves once from its environment and
/// then passes down explicitly: the owning database's numeric identifier and
/// the absolute root of the data directory.
pub struct EnvConfig {
    pub database_oid: u32,
    pub data_dir_path: String,
}

/// The identity of one search index: enough to name its storage location
/// deterministically, with no coordination between processes.
#[derive(Debug, Hash, PartialEq, Eq)]
pub struct WriterDirectory {
    pub index_name: String,
    pub database_oid: u32,
    pub postgres_data_dir_path: String,
}

impl Clone for WriterDirectory {
    fn clone(&self) -> (r: Self)
        ensures
            r == *self,
    {
        WriterDirectory {
            index_name: self.index_name.clone(),
            database_oid: self.database_oid,
            postgres_data_dir_path: self.postgres_data_dir_path.clone(),
        }
    }
}

/// The root of one index's storage tree.
pub struct SearchIndexDirPath(pub String);

/// The metadata file inside an index's storage tree, enabling loading an
/// index across connections.
pub struct SearchIndexConfigFilePath(pub String);

/// The directory inside an index's storage tree that the embedded indexing
/// engine owns and populates.
pub struct TantivyDirPath(pub String);

/// The per-writer-process file used for inter-process handoff.
pub struct WriterTransferPipeFilePath(pub String);

/// The namespace shared by every index under one storage root:
/// `<root>/paradedb/pg_search`.
pub open spec fn namespace_chars(root: Seq<char>) -> Seq<char> {
    root + "/"@ + "paradedb"@ + "/"@ + "pg_search"@
}

/// The directory name unique to one identity: `<database_oid>_<index_name>`.
pub open spec fn index_dir_name_chars(d: WriterDirectory) -> Seq<char> {
    spec_decimal(d.database_oid as nat) + "_"@ + d.index_name@
}

/// The root of one identity's storage tree.
pub open spec fn index_root_chars(d: WriterDirectory) -> Seq<char> {
    namespace_chars(d.postgres_data_dir_path@) + "/"@ + index_dir_name_chars(d)
}

/// The metadata file under one identity's root.
pub open spec fn config_file_chars(d: WriterDirectory) -> Seq<char> {
    index_root_chars(d) + "/"@ + "search-index.json"@
}

/// The engine-data directory under one identity's root.
pub open spec fn tantivy_dir_chars(d: WriterDirectory) -> Seq<char> {
    index_root_chars(d) + "/"@ + "tantivy"@
}

/// The transfer-pipe directory, shared across all indices of one root.
pub open spec fn transfer_dir_chars(root: Seq<char>) -> Seq<char> {
    namespace_chars(root) + "/"@ + "writer_transfer"@
}

/// The transfer-pipe file of the writer process with identifier `pid`.
pub open spec fn transfer_pipe_chars(root: Seq<char>, pid: u32) -> Seq<char> {
    transfer_dir_chars(root) + "/"@ + spec_decimal(pid as nat)
}

/// Relies on std::path::Path::exists: reports whether the path points at an
/// existing filesystem entity at the moment of the call. The answer depends
/// on the state of the disk, so nothing is promised of it.
#[verifier::external_body]
pub(crate) fn path_exists(path: &String) -> bool {
    std::path::Path::new(path.as_str()).exists()
}

impl WriterDirectory {
    /// Builds the identity of `index_name` in a connection process, where the
    /// owning database and data directory come from the host environment.
    pub fn from_index_name(index_name: &str, env: &EnvConfig) -> (r: Self)
        ensures
            r.index_name@ == index_name@,
            r.database_oid == env.database_oid,
            r.postgres_data_dir_path@ == env.data_dir_path@,
    {
        WriterDirectory {
            index_name: index_name.to_owned(),
            database_oid: env.database_oid,
            postgres_data_dir_path: env.data_dir_path.clone(),
        }
    }

    /// Builds the identity in a background process, where the owning database
    /// must be named explicitly and only the data directory comes from the
    /// host environment.
    pub fn from_db_id_and_index_name(database_oid: u32, index_name: &str, env: &EnvConfig) -> (r:
        Self)
        ensures
            r.index_name@ == index_name@,
            r.database_oid == database_oid,
            r.postgres_data_dir_path@ == env.data_dir_path@,
    {
        WriterDirectory {
            index_name: index_name.to_owned(),
            database_oid,
            postgres_data_dir_path: env.data_dir_path.clone(),
        }
    }

    fn namespace_path(&self) -> (r: String)
        ensures
            r@ == namespace_chars(self.postgres_data_dir_path@),
    {
        let mut s = self.postgres_data_dir_path.clone();
        s.append("/");
        s.append("paradedb");
        s.append("/");
        s.append("pg_search");
        s
    }

    /// The root path of this identity's storage tree, computed purely.
    pub fn search_index_dir_path(&self) -> (r: SearchIndexDirPath)
        ensures
            r.0@ == index_root_chars(*self),
    {
        let mut s = self.namespace_path();
        s.append("/");
        let digits = u32_to_decimal(self.database_oid);
        s.append(digits.as_str());
        s.append("_");
        s.append(self.index_name.as_str());
        proof {
            assert(s@ =~= index_root_chars(*self));
        }
        SearchIndexDirPath(s)
    }

    /// The metadata file path of this identity, computed purely.
    pub fn search_index_config_file_path(&self) -> (r: SearchIndexConfigFilePath)
        ensures
            r.0@ == config_file_chars(*self),
    {
        let SearchIndexDirPath(mut s) = self.search_index_dir_path();
        s.append("/");
        s.append("search-index.json");
        proof {
            assert(s@ =~= config_file_chars(*self));
        }
        SearchIndexConfigFilePath(s)
    }

    /// The engine-data directory path of this identity, computed purely.
    pub fn tantivy_dir_path(&self) -> (r: TantivyDirPath)
        ensures
            r.0@ == tantivy_dir_chars(*self),
    {
        let SearchIndexDirPath(mut s) = self.search_index_dir_path();
        s.append("/");
        s.append("tantivy");
        proof {
            assert(s@ =~= tantivy_dir_chars(*self));
        }
        TantivyDirPath(s)
    }

    /// The transfer-pipe directory shared by all indices under this root,
    /// computed purely.
    pub fn writer_transfer_dir_path(&self) -> (r: String)
        ensures
            r@ == transfer_dir_chars(self.postgres_data_dir_path@),
    {
        let mut s = self.namespace_path();
        s.append("/");
        s.append("writer_transfer");
        proof {
            assert(s@ =~= transfer_dir_chars(self.postgres_data_dir_path@));
        }
        s
    }

    /// The transfer-pipe file of the writer process whose numeric identifier
    /// is `pid`, computed purely.
    pub fn writer_transfer_pipe_path(&self, pid: u32) -> (r: WriterTransferPipeFilePath)
        ensures
            r.0@ == transfer_pipe_chars(self.postgres_data_dir_path@, pid),
    {
        let mut s = self.writer_transfer_dir_path();
        s.append("/");
        let digits = u32_to_decimal(pid);
        s.append(digits.as_str());
        proof {
            assert(s@ =~= transfer_pipe_chars(self.postgres_data_dir_path@, pid));
        }
        WriterTransferPipeFilePath(s)
    }

    /// Whether this identity's index root currently exists on disk, checked
    /// without creating anything. The path consulted is exactly the one
    /// `search_index_dir_path` resolves; the check itself cannot fail.
    pub fn index_exists(&self) -> (r: Result<bool, SearchDirectoryError>)
        ensures
            r is Ok,
    {
        let SearchIndexDirPath(path) = self.search_index_dir_path();
        Ok(path_exists(&path))
    }
}

/// Determinism of path resolution: identities with equal fields resolve to
/// byte-equal paths — the index root, and with it every path derived from it —
/// in any process and on any call.
pub proof fn lemma_paths_deterministic(a: WriterDirectory, b: WriterDirectory, pid: u32)
    requires
        a.index_name@ == b.index_name@,
        a.database_oid == b.database_oid,
        a.postgres_data_dir_path@ == b.postgres_data_dir_path@,
    ensures
        index_root_chars(a) == index_root_chars(b),
        config_file_chars(a) == config_file_chars(b),
        tantivy_dir_chars(a) == tantivy_dir_chars(b),
        transfer_pipe_chars(a.postgres_data_dir_path@, pid) == transfer_pipe_chars(
            b.postgres_data_dir_path@,
            pid,
        ),
{
}

} // verus!

