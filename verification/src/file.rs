//! The document state: a path and the buffered contents, with the read/write
//! policy. Disk access itself is the host's job: a read or a write is split
//! into a verified planning step (which names the path and the text involved)
//! and, for reads, a verified completion step that takes the disk's outcome
//! as a plain value.

use vstd::prelude::*;

verus! {

/// The mathematical model of a document: the path it is bound to and the text
/// buffered in memory. An empty path means the document is memory-only.
pub struct DocView {
    pub path: Seq<char>,
    pub contents: Seq<char>,
}

/// Whether a document in state `d` is in memory-only mode: no path is bound,
/// so reads and writes never touch the disk.
pub open spec fn memory_only(d: DocView) -> bool {
    d.path.len() == 0
}

/// The state after the path is replaced: contents are retained, so setting an
/// empty path demotes the document to memory-only mode without losing text.
pub open spec fn with_path(d: DocView, p: Seq<char>) -> DocView {
    DocView { path: p, contents: d.contents }
}

/// The state after the buffered contents are replaced: the path is retained.
pub open spec fn with_contents(d: DocView, c: Seq<char>) -> DocView {
    DocView { path: d.path, contents: c }
}

/// The state of a freshly created document: no path, empty buffer.
pub open spec fn initial() -> DocView {
    DocView { path: Seq::empty(), contents: Seq::empty() }
}

/// The text a successful write persists: always the whole buffer.
pub open spec fn write_payload(d: DocView) -> Seq<char> {
    d.contents
}

/// The text a successful read yields and stores: the buffer when the document
/// is memory-only, else exactly what the disk handed back.
pub open spec fn read_result(d: DocView, loaded: Seq<char>) -> Seq<char> {
    if memory_only(d) {
        d.contents
    } else {
        loaded
    }
}

/// The state after a successful read: the text it yielded becomes the buffer.
pub open spec fn after_read(d: DocView, loaded: Seq<char>) -> DocView {
    with_contents(d, read_result(d, loaded))
}

/// A file that can be read and written to.
pub struct File {
    /// The path of the file. If this is empty, the file is not saved to disk.
    pub path: String,
    /// The contents of the file.
    pub contents: String,
}

impl View for File {
    type V = DocView;

    open spec fn view(&self) -> DocView {
        DocView { path: self.path@, contents: self.contents@ }
    }
}

impl File {
    /// A freshly created document: no path bound, empty buffer.
    pub fn new() -> (f: File)
        ensures
            f@ == initial(),
    {
        let f = File { path: String::new(), contents: String::new() };
        proof {
            assert(f@.path =~= Seq::<char>::empty());
            assert(f@.contents =~= Seq::<char>::empty());
        }
        f
    }

    /// Replaces the stored path unconditionally. No disk access, no failure;
    /// the buffered contents are kept.
    pub fn set_path(&mut self, path: String)
        ensures
            final(self)@ == with_path(old(self)@, path@),
    {
        self.path = path;
    }

    /// Returns the current path, or signals the no-path condition when the
    /// document is memory-only: callers that need a concrete filesystem
    /// location must not mistake an unsaved document for one at an empty path.
    pub fn get_path(&self) -> (r: Result<String, NoPath>)
        ensures
            r is Err <==> memory_only(self@),
            r matches Ok(p) ==> p@ == self@.path,
    {
        if self.path.as_str().is_empty() {
            Err(NoPath)
        } else {
            Ok(self.path.clone())
        }
    }

    /// Overwrites the buffered contents unconditionally; the path is kept and
    /// the disk is not touched. Keeps the buffer in sync with unsaved edits.
    pub fn save_contents(&mut self, contents: String)
        ensures
            final(self)@ == with_contents(old(self)@, contents@),
    {
        self.contents = contents;
    }

    /// The step a read must take. No disk access happens here: in memory-only
    /// mode the plan already carries the whole answer, otherwise it names the
    /// path whose file the host must load in full.
    pub fn begin_read(&self) -> (plan: ReadPlan)
        ensures
            memory_only(self@) ==> (plan matches ReadPlan::Buffered(c) && c@ == self@.contents),
            !memory_only(self@) ==> (plan matches ReadPlan::Load(p) && p@ == self@.path),
    {
        if self.path.as_str().is_empty() {
            ReadPlan::Buffered(self.contents.clone())
        } else {
            ReadPlan::Load(self.path.clone())
        }
    }

    /// Completes a disk-backed read from the outcome the host obtained for the
    /// planned path. Freshly loaded text becomes the buffer and is returned;
    /// a failure is returned unchanged and mutates nothing, so the text held
    /// before the attempt is retained.
    pub fn finish_read(&mut self, loaded: Result<String, FsError>) -> (r: Result<String, FsError>)
        requires
            !memory_only(old(self)@),
        ensures
            loaded is Ok ==> final(self)@ == after_read(old(self)@, loaded->Ok_0@),
            loaded is Ok ==> (r matches Ok(c) && c@ == read_result(old(self)@, loaded->Ok_0@)),
            loaded is Err ==> final(self)@ == old(self)@ && r == Err::<String, FsError>(loaded->Err_0),
    {
        match loaded {
            Ok(text) => {
                self.contents = text.clone();
                Ok(text)
            }
            Err(e) => Err(e),
        }
    }

    /// The step a write must take. In memory-only mode there is nothing to
    /// persist and the write trivially succeeds; otherwise the plan names the
    /// path where the host must create or truncate a file and store the given
    /// text — always the whole buffer — in full. A write mutates nothing
    /// here, so a failed one leaves both path and contents as they were.
    pub fn begin_write(&self) -> (plan: WritePlan)
        ensures
            memory_only(self@) ==> plan is Skip,
            !memory_only(self@) ==> (plan matches WritePlan::Store(p, t) && p@ == self@.path
                && t@ == write_payload(self@)),
    {
        if self.path.as_str().is_empty() {
            WritePlan::Skip
        } else {
            WritePlan::Store(self.path.clone(), self.contents.clone())
        }
    }
}

/// The signal `get_path` answers when no path is bound.
#[derive(Clone, Copy, Debug, PartialEq, Eq, Structural)]
pub struct NoPath;

/// The step a read takes: the buffered text is already the answer, or the
/// file at the given path must be loaded.
#[derive(Clone, Debug, PartialEq, Eq)]
pub enum ReadPlan {
    /// No path is bound: this text is the document; the disk plays no part.
    Buffered(String),
    /// A path is bound: load the file at this path in full.
    Load(String),
}

/// The step a write takes: nothing, or storing text at a path.
#[derive(Clone, Debug, PartialEq, Eq)]
pub enum WritePlan {
    /// No path is bound: there is nothing to persist, success is trivial.
    Skip,
    /// A path is bound: create or truncate the file at the first field's path
    /// and store the second field's text there in full.
    Store(String, String),
}

/// The kinds of filesystem failure the library distinguishes.
#[derive(Clone, Copy, Debug, PartialEq, Eq, Structural)]
pub enum FsErrorKind {
    /// The file does not exist.
    NotFound,
    /// The caller may not touch the file.
    PermissionDenied,
    /// Any other input/output failure.
    Other,
}

/// A failure reported by the host filesystem, handed to the library as a
/// plain value.
#[derive(Clone, Debug, PartialEq, Eq)]
pub struct FsError {
    pub kind: FsErrorKind,
    pub message: String,
}

} // verus!
