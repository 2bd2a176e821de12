//! Lock-aware teardown of an index's whole storage tree.
//!
//! Removal traverses the tree depth-first and deletes children before their
//! directory. The filesystem lives outside this crate, so the traversal is an
//! explicit machine: it hands the caller one action at a time (list a
//! directory, open a file, take its exclusive lock, unlink it, remove a
//! directory) and consumes the outcome as an event. Every decision — which
//! entry comes next, which races are benign, which error a failing call maps
//! to — is made and proved here. In particular a file is never unlinked
//! before its exclusive lock was acquired, a vanished file or directory is
//! skipped, and an OS refusal to remove a directory that is "not empty"
//! (the embedded engine may still be writing) ends the run as a success.

use crate::directory::index_root_chars;
use crate::directory::path_exists;
use crate::directory::SearchIndexDirPath;
use crate::directory::WriterDirectory;
use crate::errors::IoCause;
use crate::errors::IoKind;
use crate::errors::SearchDirectoryError;
use vstd::prelude::*;
use vstd::string::StrSliceExecFns;

verus! {

/// Whether `needle` occurs as a contiguous run inside `hay`.
pub open spec fn contains_seq(hay: Seq<char>, needle: Seq<char>) -> bool {
    exists|i: int|
        0 <= i && i + needle.len() <= hay.len() && #[trigger] hay.subrange(i, i + needle.len())
            == needle
}

/// The marker the operating system's "directory not empty" report carries.
pub open spec fn not_empty_marker() -> Seq<char> {
    "not empty"@
}

/// Whether a removal refusal's message reports the directory as not empty —
/// the benign outcome of the embedded engine writing during teardown.
pub fn message_says_not_empty(msg: &str) -> (r: bool)
    ensures
        r == contains_seq(msg@, not_empty_marker()),
{
    let needle = "not empty";
    proof {
        reveal_strlit("not empty");
    }
    let n = msg.unicode_len();
    if n < 9 {
        proof {
            if contains_seq(msg@, not_empty_marker()) {
                let i = choose|i: int|
                    0 <= i && i + not_empty_marker().len() <= msg@.len()
                        && #[trigger] msg@.subrange(i, i + not_empty_marker().len())
                        == not_empty_marker();
                assert(false);
            }
        }
        return false;
    }
    let mut i: usize = 0;
    let mut found = false;
    while !found && i <= n - 9
        invariant
            n == msg@.len(),
            9 <= n,
            i <= n - 8,
            needle@ == not_empty_marker(),
            needle@.len() == 9,
            found ==> contains_seq(msg@, not_empty_marker()),
            !found ==> forall|k: int|
                0 <= k < i ==> #[trigger] msg@.subrange(k, k + 9) != not_empty_marker(),
        decreases (if found { 0int } else { 1int }), n - i,
    {
        let mut j: usize = 0;
        let mut all_eq = true;
        while all_eq && j < 9
            invariant
                n == msg@.len(),
                i + 9 <= n,
                needle@ == not_empty_marker(),
                needle@.len() == 9,
                j <= 9,
                all_eq ==> forall|l: int| 0 <= l < j ==> #[trigger] msg@[i + l] == needle@[l],
                !all_eq ==> msg@.subrange(i as int, i + 9) != not_empty_marker(),
            decreases (if all_eq { 1int } else { 0int }), 9 - j,
        {
            if msg.get_char(i + j) == needle.get_char(j) {
                j = j + 1;
            } else {
                proof {
                    assert(msg@.subrange(i as int, i + 9)[j as int] == msg@[i + j]);
                }
                all_eq = false;
            }
        }
        if all_eq {
            proof {
                assert forall|l: int| 0 <= l < 9 implies msg@.subrange(i as int, i + 9)[l]
                    == not_empty_marker()[l] by {
                    assert(msg@[i + l] == needle@[l]);
                }
                assert(msg@.subrange(i as int, i + 9) =~= not_empty_marker());
            }
            found = true;
        } else {
            i = i + 1;
        }
    }
    proof {
        if !found {
            assert(forall|k: int|
                0 <= k && k + not_empty_marker().len() <= msg@.len() ==> #[trigger] msg@.subrange(
                    k,
                    k + not_empty_marker().len(),
                ) != not_empty_marker());
        }
    }
    found
}

/// One entry of a directory listing: its path and whether it is itself a
/// directory (anything that is not is treated as a regular file).
#[derive(Debug)]
pub struct ChildEntry {
    pub path: String,
    pub is_dir: bool,
}

impl Clone for ChildEntry {
    fn clone(&self) -> (r: Self)
        ensures
            r == *self,
    {
        ChildEntry { path: self.path.clone(), is_dir: self.is_dir }
    }
}

/// One directory being drained: its path, its listing, and how many of the
/// listed children have been handed out so far.
#[derive(Debug)]
pub struct Frame {
    pub dir: String,
    pub children: Vec<ChildEntry>,
    pub next: usize,
}

/// What the machine is waiting to hear about.
#[derive(Debug)]
pub enum RemovePhase {
    /// The listing of the deepest unfinished directory.
    AwaitEntries,
    /// The attempt to open the current file before locking it.
    AwaitOpen,
    /// The attempt to take the exclusive lock on the opened file.
    AwaitLock,
    /// The attempt to unlink the locked file.
    AwaitUnlink,
    /// The attempt to remove the now-drained directory.
    AwaitRmdir,
    /// The removal is decided; no further event is accepted.
    Finished,
}

/// The next filesystem call the caller must make.
#[derive(Debug)]
pub enum RemoveAction {
    /// List the entries of this directory.
    ReadDir(String),
    /// Open this file (without creating it).
    OpenFile(String),
    /// Take an exclusive lock on the file just opened, blocking until any
    /// concurrent holder releases it.
    LockFile(String),
    /// Unlink the locked file.
    RemoveFile(String),
    /// Remove this directory (which the machine has drained).
    RemoveDir(String),
    /// The removal is decided: this is its result.
    Done(Result<(), SearchDirectoryError>),
}

/// The outcome of the action the machine last asked for.
#[derive(Debug)]
pub enum RemoveEvent {
    DirEntries(Vec<ChildEntry>),
    DirReadFailed(IoCause),
    FileOpened,
    FileOpenFailed(IoCause),
    FileLocked,
    FileLockFailed(IoCause),
    FileRemoved,
    FileRemoveFailed(IoCause),
    DirRemoved,
    DirRemoveFailed(IoCause),
}

/// Every frame's cursor stays within its listing.
pub open spec fn frames_bounded(stack: Seq<Frame>) -> bool {
    forall|q: int|
        0 <= q < stack.len() ==> (#[trigger] stack[q].next) <= stack[q].children@.len()
}

/// The fields of a frame, spelled out.
pub open spec fn frame_is(f: Frame, dir: Seq<char>, children: Seq<ChildEntry>, next: int) -> bool {
    f.dir@ == dir && f.children@ == children && f.next == next
}

/// Decides a removal of an index's whole storage tree, depth-first.
#[derive(Debug)]
pub struct RemoveMachine {
    pub stack: Vec<Frame>,
    pub phase: RemovePhase,
}

impl RemoveMachine {
    /// The deepest unfinished directory.
    pub open spec fn top(self) -> Frame {
        self.stack@.last()
    }

    /// The path of the directory being drained.
    pub open spec fn cur_dir(self) -> Seq<char> {
        self.top().dir@
    }

    /// The path of the file currently being opened, locked or unlinked.
    pub open spec fn cur_file(self) -> Seq<char> {
        self.top().children@[self.top().next - 1].path@
    }

    /// The machine's invariant: a live machine has at least the root frame,
    /// every cursor is within its listing, and the awaited outcome matches
    /// where the top cursor stands — a file phase points at a non-directory
    /// child, and a directory is removed only once its listing is drained.
    pub open spec fn wf(self) -> bool {
        match self.phase {
            RemovePhase::Finished => true,
            _ => {
                &&& self.stack@.len() >= 1
                &&& frames_bounded(self.stack@)
                &&& match self.phase {
                    RemovePhase::AwaitEntries => self.top().next == 0,
                    RemovePhase::AwaitOpen | RemovePhase::AwaitLock | RemovePhase::AwaitUnlink => {
                        &&& 1 <= self.top().next <= self.top().children@.len()
                        &&& !self.top().children@[self.top().next - 1].is_dir
                    },
                    RemovePhase::AwaitRmdir => self.top().next == self.top().children@.len(),
                    _ => true,
                }
            },
        }
    }

    /// Which events answer the awaited outcome.
    pub open spec fn event_fits(self, e: RemoveEvent) -> bool {
        match self.phase {
            RemovePhase::AwaitEntries => e is DirEntries || e is DirReadFailed,
            RemovePhase::AwaitOpen => e is FileOpened || e is FileOpenFailed,
            RemovePhase::AwaitLock => e is FileLocked || e is FileLockFailed,
            RemovePhase::AwaitUnlink => e is FileRemoved || e is FileRemoveFailed,
            RemovePhase::AwaitRmdir => e is DirRemoved || e is DirRemoveFailed,
            RemovePhase::Finished => false,
        }
    }

    /// How the machine moves to the next pending child of the stack `stack`
    /// (or, with all children of the top directory handled, to removing it):
    /// a directory child opens a fresh frame and asks for its listing; a file
    /// child asks to be opened.
    pub open spec fn advance_rel(stack: Seq<Frame>, post: RemoveMachine, r: RemoveAction) -> bool {
        let top = stack.last();
        let n = stack.len() as int;
        if top.next < top.children@.len() {
            let c = top.children@[top.next as int];
            &&& post.stack@.len() == (if c.is_dir {
                n + 1
            } else {
                n
            })
            &&& (forall|q: int| 0 <= q < n - 1 ==> post.stack@[q] == stack[q])
            &&& frame_is(post.stack@[n - 1], top.dir@, top.children@, top.next + 1)
            &&& if c.is_dir {
                &&& frame_is(post.stack@[n], c.path@, Seq::<ChildEntry>::empty(), 0)
                &&& post.phase is AwaitEntries
                &&& (r matches RemoveAction::ReadDir(p) && p@ == c.path@)
            } else {
                &&& post.phase is AwaitOpen
                &&& (r matches RemoveAction::OpenFile(p) && p@ == c.path@)
            }
        } else {
            &&& post.stack@ == stack
            &&& post.phase is AwaitRmdir
            &&& (r matches RemoveAction::RemoveDir(p) && p@ == top.dir@)
        }
    }

    /// How the machine leaves a fully removed (or benignly unremovable)
    /// directory: the root frame ends the whole run with success; any other
    /// frame returns to its parent's next child.
    pub open spec fn pop_rel(stack: Seq<Frame>, post: RemoveMachine, r: RemoveAction) -> bool {
        if stack.len() == 1 {
            post.phase is Finished && (r matches RemoveAction::Done(res) && res is Ok)
        } else {
            Self::advance_rel(stack.drop_last(), post, r)
        }
    }

    /// The transition relation of one step: for each awaited outcome, what
    /// the machine does with success, with each benign race, and with each
    /// hard failure — including exactly which error the failure maps to and
    /// which path it names.
    pub open spec fn step_rel(
        pre: RemoveMachine,
        e: RemoveEvent,
        post: RemoveMachine,
        r: RemoveAction,
    ) -> bool {
        match (pre.phase, e) {
            (RemovePhase::AwaitEntries, RemoveEvent::DirEntries(es)) => Self::advance_rel(
                pre.stack@.update(
                    pre.stack@.len() - 1,
                    (Frame { dir: pre.top().dir, children: es, next: 0 }),
                ),
                post,
                r,
            ),
            (RemovePhase::AwaitEntries, RemoveEvent::DirReadFailed(c)) => {
                &&& post.phase is Finished
                &&& (r matches RemoveAction::Done(res) && res matches Err(
                    SearchDirectoryError::ReadDirectoryEntry(p, cc),
                ) && p@ == pre.cur_dir() && cc == c)
            },
            (RemovePhase::AwaitOpen, RemoveEvent::FileOpened) => {
                &&& post.stack@ == pre.stack@
                &&& post.phase is AwaitLock
                &&& (r matches RemoveAction::LockFile(p) && p@ == pre.cur_file())
            },
            (RemovePhase::AwaitOpen, RemoveEvent::FileOpenFailed(c)) => if c.kind is NotFound {
                // The file already vanished: not an error, move on.
                Self::advance_rel(pre.stack@, post, r)
            } else {
                &&& post.phase is Finished
                &&& (r matches RemoveAction::Done(res) && res matches Err(
                    SearchDirectoryError::OpenFileForRemoval(p, cc),
                ) && p@ == pre.cur_file() && cc == c)
            },
            (RemovePhase::AwaitLock, RemoveEvent::FileLocked) => {
                &&& post.stack@ == pre.stack@
                &&& post.phase is AwaitUnlink
                &&& (r matches RemoveAction::RemoveFile(p) && p@ == pre.cur_file())
            },
            (RemovePhase::AwaitLock, RemoveEvent::FileLockFailed(c)) => {
                &&& post.phase is Finished
                &&& (r matches RemoveAction::Done(res) && res matches Err(
                    SearchDirectoryError::LockFileForRemoval(p, cc),
                ) && p@ == pre.cur_file() && cc == c)
            },
            (RemovePhase::AwaitUnlink, RemoveEvent::FileRemoved) => Self::advance_rel(
                pre.stack@,
                post,
                r,
            ),
            (RemovePhase::AwaitUnlink, RemoveEvent::FileRemoveFailed(c)) => if c.kind
                is NotFound {
                // Someone else unlinked it first: not an error, move on.
                Self::advance_rel(pre.stack@, post, r)
            } else {
                &&& post.phase is Finished
                &&& (r matches RemoveAction::Done(res) && res matches Err(
                    SearchDirectoryError::RemoveFile(p, cc),
                ) && p@ == pre.cur_file() && cc == c)
            },
            (RemovePhase::AwaitRmdir, RemoveEvent::DirRemoved) => Self::pop_rel(
                pre.stack@,
                post,
                r,
            ),
            (RemovePhase::AwaitRmdir, RemoveEvent::DirRemoveFailed(c)) => if c.kind is NotFound
                || contains_seq(c.message@, not_empty_marker()) {
                // Already gone, or refilled while being drained: both benign.
                Self::pop_rel(pre.stack@, post, r)
            } else {
                &&& post.phase is Finished
                &&& (r matches RemoveAction::Done(res) && res matches Err(
                    SearchDirectoryError::RemoveDirectory(p, cc, fl),
                ) && p@ == pre.cur_dir() && cc == c)
            },
            _ => false,
        }
    }

    /// Decides a removal for `directory`, given whether its index root
    /// currently exists: an absent root makes the whole removal a successful
    /// no-op, and otherwise the traversal begins by listing the root.
    pub fn start_with(directory: &WriterDirectory, root_present: bool) -> (r: (
        RemoveMachine,
        RemoveAction,
    ))
        ensures
            r.0.wf(),
            !root_present ==> r.0.phase is Finished && (r.1 matches RemoveAction::Done(res)
                && res is Ok),
            root_present ==> {
                &&& r.0.phase is AwaitEntries
                &&& r.0.stack@.len() == 1
                &&& r.0.cur_dir() == index_root_chars(*directory)
                &&& (r.1 matches RemoveAction::ReadDir(p) && p@ == index_root_chars(*directory))
            },
    {
        if !root_present {
            (
                RemoveMachine { stack: Vec::new(), phase: RemovePhase::Finished },
                RemoveAction::Done(Ok(())),
            )
        } else {
            let SearchIndexDirPath(root) = directory.search_index_dir_path();
            let mut stack: Vec<Frame> = Vec::new();
            stack.push(Frame { dir: root.clone(), children: Vec::new(), next: 0 });
            (
                RemoveMachine { stack, phase: RemovePhase::AwaitEntries },
                RemoveAction::ReadDir(root),
            )
        }
    }

    /// Begins a removal: checks the index root on disk — without creating
    /// anything — and hands the answer to `start_with`.
    pub fn start(directory: &WriterDirectory) -> (r: (RemoveMachine, RemoveAction))
        ensures
            r.0.wf(),
            (r.0.phase is Finished && (r.1 matches RemoveAction::Done(res) && res is Ok)) || {
                &&& r.0.phase is AwaitEntries
                &&& r.0.stack@.len() == 1
                &&& r.0.cur_dir() == index_root_chars(*directory)
                &&& (r.1 matches RemoveAction::ReadDir(p) && p@ == index_root_chars(*directory))
            },
    {
        let SearchIndexDirPath(root) = directory.search_index_dir_path();
        let present = path_exists(&root);
        Self::start_with(directory, present)
    }

    /// Moves to the next pending child of the top directory, or to removing
    /// the directory itself once its listing is drained.
    fn advance(&mut self) -> (r: RemoveAction)
        requires
            old(self).stack@.len() >= 1,
            frames_bounded(old(self).stack@),
        ensures
            final(self).wf(),
            Self::advance_rel(old(self).stack@, *final(self), r),
    {
        let mut top = self.stack.pop().unwrap();
        if top.next < top.children.len() {
            let c_is_dir = top.children[top.next].is_dir;
            let c_path = top.children[top.next].path.clone();
            top.next = top.next + 1;
            self.stack.push(top);
            if c_is_dir {
                self.stack.push(Frame { dir: c_path.clone(), children: Vec::new(), next: 0 });
                self.phase = RemovePhase::AwaitEntries;
                RemoveAction::ReadDir(c_path)
            } else {
                self.phase = RemovePhase::AwaitOpen;
                RemoveAction::OpenFile(c_path)
            }
        } else {
            let d = top.dir.clone();
            self.stack.push(top);
            self.phase = RemovePhase::AwaitRmdir;
            proof {
                assert(self.stack@ =~= old(self).stack@);
            }
            RemoveAction::RemoveDir(d)
        }
    }

    /// Leaves the top directory behind (it was removed, or is benignly
    /// unremovable) and returns to the parent, or finishes at the root.
    fn pop_and_continue(&mut self) -> (r: RemoveAction)
        requires
            old(self).stack@.len() >= 1,
            frames_bounded(old(self).stack@),
        ensures
            final(self).wf(),
            Self::pop_rel(old(self).stack@, *final(self), r),
    {
        let _done = self.stack.pop().unwrap();
        if self.stack.len() == 0 {
            self.phase = RemovePhase::Finished;
            RemoveAction::Done(Ok(()))
        } else {
            self.advance()
        }
    }

    /// Consumes the outcome of the last action and decides the next one.
    /// Beyond the transition relation itself, two consequences are stated
    /// here because they carry the safety story: a file unlink is asked for
    /// only in the step that consumes the lock-acquired event for that very
    /// file, and a "not empty" refusal at the root ends the run successfully.
    pub fn step(&mut self, event: RemoveEvent) -> (r: RemoveAction)
        requires
            old(self).wf(),
            old(self).event_fits(event),
        ensures
            final(self).wf(),
            Self::step_rel(*old(self), event, *final(self), r),
            (r matches RemoveAction::RemoveFile(p) ==> {
                &&& old(self).phase is AwaitLock
                &&& event is FileLocked
                &&& p@ == old(self).cur_file()
            }),
            ({
                &&& old(self).phase is AwaitRmdir
                &&& old(self).stack@.len() == 1
                &&& (event matches RemoveEvent::DirRemoveFailed(c) && contains_seq(
                    c.message@,
                    not_empty_marker(),
                ))
            } ==> (r matches RemoveAction::Done(res) && res is Ok)),
    {
        match event {
            RemoveEvent::DirEntries(es) => {
                let ghost es0 = es;
                let mut top = self.stack.pop().unwrap();
                top.children = es;
                top.next = 0;
                self.stack.push(top);
                proof {
                    assert(self.stack@ =~= old(self).stack@.update(
                        old(self).stack@.len() - 1,
                        (Frame { dir: old(self).top().dir, children: es0, next: 0 }),
                    ));
                }
                self.advance()
            },
            RemoveEvent::DirReadFailed(c) => {
                let k = self.stack.len() - 1;
                let p = self.stack[k].dir.clone();
                self.phase = RemovePhase::Finished;
                RemoveAction::Done(Err(SearchDirectoryError::ReadDirectoryEntry(p, c)))
            },
            RemoveEvent::FileOpened => {
                let k = self.stack.len() - 1;
                let j = self.stack[k].next - 1;
                let p = self.stack[k].children[j].path.clone();
                self.phase = RemovePhase::AwaitLock;
                RemoveAction::LockFile(p)
            },
            RemoveEvent::FileOpenFailed(c) => {
                if c.kind == IoKind::NotFound {
                    self.advance()
                } else {
                    let k = self.stack.len() - 1;
                    let j = self.stack[k].next - 1;
                    let p = self.stack[k].children[j].path.clone();
                    self.phase = RemovePhase::Finished;
                    RemoveAction::Done(Err(SearchDirectoryError::OpenFileForRemoval(p, c)))
                }
            },
            RemoveEvent::FileLocked => {
                let k = self.stack.len() - 1;
                let j = self.stack[k].next - 1;
                let p = self.stack[k].children[j].path.clone();
                self.phase = RemovePhase::AwaitUnlink;
                RemoveAction::RemoveFile(p)
            },
            RemoveEvent::FileLockFailed(c) => {
                let k = self.stack.len() - 1;
                let j = self.stack[k].next - 1;
                let p = self.stack[k].children[j].path.clone();
                self.phase = RemovePhase::Finished;
                RemoveAction::Done(Err(SearchDirectoryError::LockFileForRemoval(p, c)))
            },
            RemoveEvent::FileRemoved => self.advance(),
            RemoveEvent::FileRemoveFailed(c) => {
                if c.kind == IoKind::NotFound {
                    self.advance()
                } else {
                    let k = self.stack.len() - 1;
                    let j = self.stack[k].next - 1;
                    let p = self.stack[k].children[j].path.clone();
                    self.phase = RemovePhase::Finished;
                    RemoveAction::Done(Err(SearchDirectoryError::RemoveFile(p, c)))
                }
            },
            RemoveEvent::DirRemoved => self.pop_and_continue(),
            RemoveEvent::DirRemoveFailed(c) => {
                if c.kind == IoKind::NotFound || message_says_not_empty(c.message.as_str()) {
                    self.pop_and_continue()
                } else {
                    let k = self.stack.len() - 1;
                    let p = self.stack[k].dir.clone();
                    let listing = list_files(&p);
                    self.phase = RemovePhase::Finished;
                    RemoveAction::Done(
                        Err(SearchDirectoryError::RemoveDirectory(p, c, listing)),
                    )
                }
            },
        }
    }
}

/// Relies on walkdir::WalkDir: walks the tree under `directory` and yields,
/// for every entry it could read, the entry's path and whether it is a
/// regular file; unreadable entries are skipped. The answer depends on the
/// state of the disk, so nothing is promised of it.
#[verifier::external_body]
fn walk_entries(directory: &String) -> Vec<(String, bool)> {
    let mut out = Vec::new();
    for entry in walkdir::WalkDir::new(directory.as_str()) {
        if let Ok(entry) = entry {
            let is_file = entry.path().is_file();
            out.push((entry.path().to_string_lossy().into_owned(), is_file));
        }
    }
    out
}

/// The paths among `entries` marked as regular files, in order.
pub open spec fn spec_file_paths(entries: Seq<(String, bool)>) -> Seq<String>
    decreases entries.len(),
{
    if entries.len() == 0 {
        Seq::empty()
    } else {
        let rest = spec_file_paths(entries.drop_last());
        if entries.last().1 {
            rest.push(entries.last().0)
        } else {
            rest
        }
    }
}

/// Keeps exactly the regular files of a walked listing, in order.
pub fn file_paths_of(entries: &Vec<(String, bool)>) -> (r: Vec<String>)
    ensures
        r@ == spec_file_paths(entries@),
{
    let mut r: Vec<String> = Vec::new();
    let mut i: usize = 0;
    while i < entries.len()
        invariant
            i <= entries@.len(),
            r@ == spec_file_paths(entries@.subrange(0, i as int)),
        decreases entries@.len() - i,
    {
        let e = &entries[i];
        if e.1 {
            r.push(e.0.clone());
        }
        proof {
            assert(entries@.subrange(0, i + 1).drop_last() =~= entries@.subrange(0, i as int));
            assert(entries@.subrange(0, i + 1).last() == entries@[i as int]);
        }
        i = i + 1;
    }
    proof {
        assert(entries@.subrange(0, entries@.len() as int) =~= entries@);
    }
    r
}

/// The diagnostic listing attached to a hard directory-removal failure: the
/// regular files still present under `directory`, walked once for reporting,
/// never to drive further deletion.
pub fn list_files(directory: &String) -> Vec<String> {
    let entries = walk_entries(directory);
    file_paths_of(&entries)
}

/// A file is unlinked only under its lock: whenever a step asks for a file
/// to be removed, that step consumed the lock-acquired event, the machine
/// was waiting on exactly that lock, and the file is the one the lock was
/// taken on.
pub proof fn lemma_unlink_only_after_lock(
    pre: RemoveMachine,
    e: RemoveEvent,
    post: RemoveMachine,
    r: RemoveAction,
    p: String,
)
    requires
        RemoveMachine::step_rel(pre, e, post, r),
        r == RemoveAction::RemoveFile(p),
    ensures
        pre.phase is AwaitLock,
        e is FileLocked,
        p@ == pre.cur_file(),
{
}

/// A "not empty" refusal is benign: if the OS refuses to remove the root
/// directory because new entries appeared during the traversal, the run
/// still ends with success, never an error.
pub proof fn lemma_not_empty_refusal_is_benign(
    pre: RemoveMachine,
    c: IoCause,
    post: RemoveMachine,
    r: RemoveAction,
)
    requires
        pre.phase is AwaitRmdir,
        pre.stack@.len() == 1,
        contains_seq(c.message@, not_empty_marker()),
        RemoveMachine::step_rel(pre, RemoveEvent::DirRemoveFailed(c), post, r),
    ensures
        r matches RemoveAction::Done(res) && res is Ok,
{
}

/// An index root that exists but is already empty is removed as a clean
/// no-op: the root's listing comes back empty, the machine asks to remove
/// the root itself, and a successful removal ends the run with success.
pub proof fn lemma_empty_root_removal_succeeds(
    m0: RemoveMachine,
    es: Vec<ChildEntry>,
    m1: RemoveMachine,
    a1: RemoveAction,
    m2: RemoveMachine,
    a2: RemoveAction,
)
    requires
        m0.phase is AwaitEntries,
        m0.stack@.len() == 1,
        es@.len() == 0,
        RemoveMachine::step_rel(m0, RemoveEvent::DirEntries(es), m1, a1),
        RemoveMachine::step_rel(m1, RemoveEvent::DirRemoved, m2, a2),
    ensures
        a1 matches RemoveAction::RemoveDir(p) && p@ == m0.cur_dir(),
        a2 matches RemoveAction::Done(res) && res is Ok,
{
    let s1 = m0.stack@.update(
        m0.stack@.len() - 1,
        (Frame { dir: m0.top().dir, children: es, next: 0 }),
    );
    assert(s1.last().children@.len() == 0);
    assert(m1.stack@ == s1);
    assert(m1.stack@.len() == 1);
}

} // verus!

