use fs2::FileExt;
use pg_search::directory::EnvConfig;
use pg_search::directory::SearchIndexDirPath;
use pg_search::directory::WriterDirectory;
use pg_search::errors::IoCause;
use pg_search::errors::IoKind;
use pg_search::errors::SearchDirectoryError;
use pg_search::metadata::LoadAction;
use pg_search::metadata::LoadEvent;
use pg_search::metadata::LoadMachine;
use pg_search::metadata::SaveAction;
use pg_search::metadata::SaveEvent;
use pg_search::metadata::SaveMachine;
use pg_search::remove::list_files;
use pg_search::remove::ChildEntry;
use pg_search::remove::RemoveAction;
use pg_search::remove::RemoveEvent;
use pg_search::remove::RemoveMachine;
use std::error::Error;
use std::io::Write;

fn io_cause(e: &std::io::Error) -> IoCause {
    let kind = match e.kind() {
        std::io::ErrorKind::NotFound => IoKind::NotFound,
        std::io::ErrorKind::PermissionDenied => IoKind::PermissionDenied,
        _ => IoKind::Other,
    };
    // fs-err's message names only the operation and path; the OS's own words
    // ("Directory not empty", ...) sit in the source chain, so append them.
    let mut message = e.to_string();
    let mut src = e.source();
    while let Some(inner) = src {
        message.push_str(": ");
        message.push_str(&inner.to_string());
        src = inner.source();
    }
    IoCause { kind, message }
}

fn listing_event(p: &str) -> RemoveEvent {
    let rd = match fs_err::read_dir(p) {
        Ok(rd) => rd,
        Err(e) => return RemoveEvent::DirReadFailed(io_cause(&e)),
    };
    let mut children = Vec::new();
    for entry in rd {
        match entry {
            Ok(en) => {
                let path = en.path();
                let is_dir = path.is_dir();
                children.push(ChildEntry { path: path.to_string_lossy().into_owned(), is_dir });
            },
            Err(e) => return RemoveEvent::DirReadFailed(io_cause(&e)),
        }
    }
    RemoveEvent::DirEntries(children)
}

/// Performs one non-final action of the removal machine against the real
/// filesystem; `held` carries the opened file between open, lock and unlink.
fn perform(a: &RemoveAction, held: &mut Option<fs_err::File>) -> RemoveEvent {
    match a {
        RemoveAction::ReadDir(p) => listing_event(p),
        RemoveAction::OpenFile(p) => match fs_err::File::open(p) {
            Ok(f) => {
                *held = Some(f);
                RemoveEvent::FileOpened
            },
            Err(e) => RemoveEvent::FileOpenFailed(io_cause(&e)),
        },
        RemoveAction::LockFile(_) => match held.as_ref().unwrap().file().lock_exclusive() {
            Ok(()) => RemoveEvent::FileLocked,
            Err(e) => RemoveEvent::FileLockFailed(io_cause(&e)),
        },
        RemoveAction::RemoveFile(p) => match fs_err::remove_file(p) {
            Ok(()) => RemoveEvent::FileRemoved,
            Err(e) => RemoveEvent::FileRemoveFailed(io_cause(&e)),
        },
        RemoveAction::RemoveDir(p) => match fs_err::remove_dir(p) {
            Ok(()) => RemoveEvent::DirRemoved,
            Err(e) => RemoveEvent::DirRemoveFailed(io_cause(&e)),
        },
        RemoveAction::Done(_) => panic!("nothing left to perform"),
    }
}

fn run_remove(d: &WriterDirectory) -> Result<(), SearchDirectoryError> {
    let (mut m, mut a) = RemoveMachine::start(d);
    let mut held: Option<fs_err::File> = None;
    loop {
        match a {
            RemoveAction::Done(res) => return res,
            other => {
                let event = perform(&other, &mut held);
                a = m.step(event);
            },
        }
    }
}

fn run_save(d: &WriterDirectory, value: &serde_json::Value) -> Result<(), SearchDirectoryError> {
    let (mut m, mut a) = SaveMachine::start(d);
    let mut payload: Option<String> = None;
    let mut file: Option<fs_err::File> = None;
    loop {
        let event = match a {
            SaveAction::Done(res) => return res,
            SaveAction::CreateDirAll(p) => match fs_err::create_dir_all(&p) {
                Ok(()) => SaveEvent::DirCreated,
                Err(e) => SaveEvent::DirCreateFailed(io_cause(&e)),
            },
            SaveAction::Serialize => match serde_json::to_string(value) {
                Ok(s) => {
                    payload = Some(s);
                    SaveEvent::Serialized
                },
                Err(e) => SaveEvent::SerializeFailed(e.to_string()),
            },
            SaveAction::CreateFile(p) => match fs_err::File::create(&p) {
                Ok(f) => {
                    file = Some(f);
                    SaveEvent::FileCreated
                },
                Err(e) => SaveEvent::FileCreateFailed(io_cause(&e)),
            },
            SaveAction::WriteAll => {
                match file.as_mut().unwrap().write_all(payload.as_ref().unwrap().as_bytes()) {
                    Ok(()) => SaveEvent::Written,
                    Err(e) => SaveEvent::WriteFailed(io_cause(&e)),
                }
            },
            SaveAction::Flush => match file.as_mut().unwrap().flush() {
                Ok(()) => SaveEvent::Flushed,
                Err(e) => SaveEvent::FlushFailed(io_cause(&e)),
            },
        };
        a = m.step(event);
    }
}

fn run_load(d: &WriterDirectory) -> Result<serde_json::Value, SearchDirectoryError> {
    let (mut m, mut a) = LoadMachine::start(d);
    let mut contents: Option<String> = None;
    let mut value: Option<serde_json::Value> = None;
    loop {
        let event = match a {
            LoadAction::Done(res) => {
                return res.map(|()| value.unwrap());
            },
            LoadAction::CreateDirAll(p) => match fs_err::create_dir_all(&p) {
                Ok(()) => LoadEvent::DirCreated,
                Err(e) => LoadEvent::DirCreateFailed(io_cause(&e)),
            },
            LoadAction::ReadFile(p) => match fs_err::read_to_string(&p) {
                Ok(s) => {
                    contents = Some(s);
                    LoadEvent::ReadOk
                },
                Err(e) => LoadEvent::ReadFailed(io_cause(&e)),
            },
            LoadAction::Deserialize => {
                match serde_json::from_str::<serde_json::Value>(contents.as_ref().unwrap()) {
                    Ok(v) => {
                        value = Some(v);
                        LoadEvent::Deserialized
                    },
                    Err(e) => LoadEvent::DeserializeFailed(e.to_string()),
                }
            },
        };
        a = m.step(event);
    }
}

fn temp_ident(tmp: &tempfile::TempDir, name: &str, oid: u32) -> WriterDirectory {
    let env = EnvConfig {
        database_oid: oid,
        data_dir_path: tmp.path().to_string_lossy().into_owned(),
    };
    WriterDirectory::from_index_name(name, &env)
}

fn schema_value(version: u64) -> serde_json::Value {
    let mut map = serde_json::Map::new();
    map.insert("schema_version".to_string(), serde_json::Value::from(version));
    serde_json::Value::Object(map)
}

#[test]
fn full_lifecycle_scenario() {
    let tmp = tempfile::TempDir::new().unwrap();
    let d = temp_ident(&tmp, "search_idx", 5);
    let v = schema_value(1);
    run_save(&d, &v).unwrap();
    assert_eq!(d.index_exists().unwrap(), true);
    let loaded = run_load(&d).unwrap();
    assert_eq!(loaded, v);
    run_remove(&d).unwrap();
    assert_eq!(d.index_exists().unwrap(), false);
    // the parent namespace directory keeps no leftover entry for this identity
    let namespace = format!("{}/paradedb/pg_search", tmp.path().to_string_lossy());
    let leftovers: Vec<String> = fs_err::read_dir(&namespace)
        .unwrap()
        .map(|e| e.unwrap().file_name().to_string_lossy().into_owned())
        .collect();
    assert!(!leftovers.iter().any(|n| n == "5_search_idx"), "leftovers: {:?}", leftovers);
}

#[test]
fn save_then_load_round_trips() {
    let tmp = tempfile::TempDir::new().unwrap();
    let d = temp_ident(&tmp, "round_idx", 3);
    let mut inner = serde_json::Map::new();
    inner.insert("fields".to_string(), serde_json::Value::from(vec!["title", "body"]));
    inner.insert("limit".to_string(), serde_json::Value::from(10_000u64));
    let v1 = serde_json::Value::Object(inner);
    run_save(&d, &v1).unwrap();
    assert_eq!(run_load(&d).unwrap(), v1);
    // a second save overwrites the whole value; the newest one wins
    let v2 = schema_value(2);
    run_save(&d, &v2).unwrap();
    assert_eq!(run_load(&d).unwrap(), v2);
}

#[test]
fn load_before_any_save_reports_read_failure() {
    let tmp = tempfile::TempDir::new().unwrap();
    let d = temp_ident(&tmp, "fresh_idx", 2);
    match run_load(&d) {
        Err(SearchDirectoryError::IndexFileRead(id, c)) => {
            assert_eq!(id, d);
            assert_eq!(c.kind, IoKind::NotFound);
        },
        other => panic!("unexpected outcome {:?}", other),
    }
    // the ensure-exists pass created the root along the way
    assert_eq!(d.index_exists().unwrap(), true);
}

#[test]
fn corrupt_metadata_reports_deserialize_failure() {
    let tmp = tempfile::TempDir::new().unwrap();
    let d = temp_ident(&tmp, "corrupt_idx", 2);
    run_save(&d, &schema_value(1)).unwrap();
    let cfg = d.search_index_config_file_path().0;
    let mut f = fs_err::File::create(&cfg).unwrap();
    f.write_all(b"{ this is no json").unwrap();
    drop(f);
    match run_load(&d) {
        Err(SearchDirectoryError::IndexDeserialize(id, _)) => assert_eq!(id, d),
        other => panic!("unexpected outcome {:?}", other),
    }
}

#[test]
fn remove_tolerates_partial_existence() {
    let tmp = tempfile::TempDir::new().unwrap();
    let d = temp_ident(&tmp, "partial_idx", 4);
    // absent root: a successful no-op
    assert_eq!(d.index_exists().unwrap(), false);
    run_remove(&d).unwrap();
    // present but empty root: removed cleanly
    let SearchIndexDirPath(root) = d.search_index_dir_path();
    fs_err::create_dir_all(&root).unwrap();
    run_remove(&d).unwrap();
    assert_eq!(d.index_exists().unwrap(), false);
}

#[test]
fn remove_twice_succeeds() {
    let tmp = tempfile::TempDir::new().unwrap();
    let d = temp_ident(&tmp, "twice_idx", 6);
    run_save(&d, &schema_value(1)).unwrap();
    run_remove(&d).unwrap();
    run_remove(&d).unwrap();
    assert_eq!(d.index_exists().unwrap(), false);
}

#[test]
fn removal_blocks_until_external_lock_released() {
    let tmp = tempfile::TempDir::new().unwrap();
    let d = temp_ident(&tmp, "locked_idx", 8);
    let SearchIndexDirPath(root) = d.search_index_dir_path();
    let tantivy = d.tantivy_dir_path().0;
    fs_err::create_dir_all(&tantivy).unwrap();
    let segment = format!("{}/segment.bin", tantivy);
    let mut f = fs_err::File::create(&segment).unwrap();
    f.write_all(b"segment bytes").unwrap();
    drop(f);
    let locked = fs_err::File::open(&segment).unwrap();
    locked.file().lock_exclusive().unwrap();
    let hold = std::time::Duration::from_millis(500);
    let begun = std::time::Instant::now();
    crossbeam_utils::thread::scope(|s| {
        let handle = s.spawn(|_| {
            // hold the lock for a while, then release it
            while begun.elapsed() < hold {}
            locked.file().unlock().unwrap();
        });
        run_remove(&d).unwrap();
        // the locked file could only be unlinked after the release
        assert!(begun.elapsed() >= hold);
        handle.join().unwrap();
    })
    .unwrap();
    assert!(!std::path::Path::new(&segment).exists());
    assert!(!std::path::Path::new(&root).exists());
    assert_eq!(d.index_exists().unwrap(), false);
}

#[test]
fn new_files_during_teardown_still_succeed() {
    let tmp = tempfile::TempDir::new().unwrap();
    let d = temp_ident(&tmp, "busy_idx", 7);
    let SearchIndexDirPath(root) = d.search_index_dir_path();
    run_save(&d, &schema_value(1)).unwrap();
    let (mut m, mut a) = RemoveMachine::start(&d);
    let mut held: Option<fs_err::File> = None;
    let mut injected = false;
    let res = loop {
        match a {
            RemoveAction::Done(res) => break res,
            other => {
                if !injected {
                    if let RemoveAction::RemoveDir(p) = &other {
                        if *p == root {
                            // a concurrent writer drops a new file in just
                            // before the root directory's removal
                            let late = format!("{}/late.bin", root);
                            let mut f = fs_err::File::create(&late).unwrap();
                            f.write_all(b"fresh").unwrap();
                            injected = true;
                        }
                    }
                }
                let event = perform(&other, &mut held);
                a = m.step(event);
            },
        }
    };
    // success, even though the directory stayed behind with the new file
    res.unwrap();
    assert_eq!(d.index_exists().unwrap(), true);
    assert!(std::path::Path::new(&format!("{}/late.bin", root)).exists());
}

#[test]
fn list_files_reports_files_under_a_tree() {
    let tmp = tempfile::TempDir::new().unwrap();
    let d = temp_ident(&tmp, "listed_idx", 9);
    run_save(&d, &schema_value(1)).unwrap();
    let SearchIndexDirPath(root) = d.search_index_dir_path();
    let listing = list_files(&root);
    let cfg = d.search_index_config_file_path().0;
    assert_eq!(listing, vec![cfg]);
}
