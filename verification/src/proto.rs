//! The vocabulary shared by every operation: what a machine may ask of its
//! driver, and what the driver may answer.

use vstd::prelude::*;

verus! {

/// Error code reported when a machine is handed an answer that does not belong
/// to the request it made last.
pub const EPROTO: i32 = 71;

/// Error code for a path at which nothing is.
pub const ENOENT: i32 = 2;

/// Error code for a mount that is in use.
pub const EBUSY: i32 = 16;

/// Error code for a path that was taken for a directory and is none.
pub const ENOTDIR: i32 = 20;

/// Error code for a path that was taken for a file and is a directory.
pub const EISDIR: i32 = 21;

/// A failed request, carried as the operating system's error number.
#[derive(Clone, Copy, PartialEq, Eq, Debug, Structural)]
pub struct IoError {
    pub code: i32,
}

/// What was found at a path.
#[derive(Clone, Copy, PartialEq, Eq, Debug, Structural)]
pub enum PathKind {
    /// Nothing is there.
    Absent,
    /// A regular file.
    File,
    /// A directory.
    Dir,
    /// Something else: a device, a socket, a pipe.
    Other,
}

/// One request on the file tree.
#[derive(Clone, Debug, PartialEq, Eq)]
pub enum FsOp {
    /// Report what is at `path`; answered by [`Event::Kind`].
    Stat { path: Vec<u8> },
    /// Read the whole file; answered by [`Event::Data`].
    Read { path: Vec<u8> },
    /// Create or truncate the file and write `data`; answered by [`Event::Done`].
    Write { path: Vec<u8>, data: Vec<u8> },
    /// Set the permission bits; answered by [`Event::Done`].
    SetMode { path: Vec<u8>, mode: u32 },
    /// Unlink one name that is no directory; answered by [`Event::Done`].
    RemoveFile { path: Vec<u8> },
    /// Remove a directory and all below it; answered by [`Event::Done`].
    RemoveDirAll { path: Vec<u8> },
}

/// The model of an [`FsOp`].
pub enum FsOpView {
    Stat { path: Seq<u8> },
    Read { path: Seq<u8> },
    Write { path: Seq<u8>, data: Seq<u8> },
    SetMode { path: Seq<u8>, mode: u32 },
    RemoveFile { path: Seq<u8> },
    RemoveDirAll { path: Seq<u8> },
}

impl View for FsOp {
    type V = FsOpView;

    open spec fn view(&self) -> FsOpView {
        match self {
            FsOp::Stat { path } => FsOpView::Stat { path: path@ },
            FsOp::Read { path } => FsOpView::Read { path: path@ },
            FsOp::Write { path, data } => FsOpView::Write { path: path@, data: data@ },
            FsOp::SetMode { path, mode } => FsOpView::SetMode { path: path@, mode: *mode },
            FsOp::RemoveFile { path } => FsOpView::RemoveFile { path: path@ },
            FsOp::RemoveDirAll { path } => FsOpView::RemoveDirAll { path: path@ },
        }
    }
}

/// The byte strings of a list, in order.
pub open spec fn rows(v: Seq<Vec<u8>>) -> Seq<Seq<u8>> {
    Seq::new(v.len(), |i: int| v[i]@)
}

/// What a machine asks its driver to do next.
#[derive(Debug, PartialEq, Eq)]
pub enum Action {
    /// Carry out a request on the file tree.
    Fs(FsOp),
    /// Run `program` with `args` and wait for it, with no input and its output
    /// thrown away; answered by [`Event::Exited`].
    Spawn { program: Vec<u8>, args: Vec<Vec<u8>> },
    /// Collect the command line of every process; answered by
    /// [`Event::Processes`].
    ListProcesses,
    /// Wait for `millis` milliseconds; answered by [`Event::Done`].
    Sleep { millis: u32 },
    /// Detach the mount at `path`; answered by [`Event::Done`].
    Unmount { path: Vec<u8> },
    /// The operation is over, with this result. Nothing more is to be done.
    Finish(Result<(), IoError>),
}

/// The model of an [`Action`].
pub enum ActionView {
    Fs(FsOpView),
    Spawn { program: Seq<u8>, args: Seq<Seq<u8>> },
    ListProcesses,
    Sleep { millis: u32 },
    Unmount { path: Seq<u8> },
    Finish(Result<(), IoError>),
}

impl View for Action {
    type V = ActionView;

    open spec fn view(&self) -> ActionView {
        match self {
            Action::Fs(op) => ActionView::Fs(op@),
            Action::Spawn { program, args } => ActionView::Spawn {
                program: program@,
                args: rows(args@),
            },
            Action::ListProcesses => ActionView::ListProcesses,
            Action::Sleep { millis } => ActionView::Sleep { millis: *millis },
            Action::Unmount { path } => ActionView::Unmount { path: path@ },
            Action::Finish(r) => ActionView::Finish(*r),
        }
    }
}

/// What the driver reports back.
#[derive(Debug, PartialEq, Eq)]
pub enum Event {
    /// Nothing happened yet: the first thing a new machine is told.
    Start,
    /// The answer to [`FsOp::Stat`].
    Kind(PathKind),
    /// The answer to a request that yields no value.
    Done(Result<(), IoError>),
    /// The answer to [`FsOp::Read`]: the file's bytes.
    Data(Result<Vec<u8>, IoError>),
    /// The answer to [`Action::Spawn`]: the exit code of the program, or `None`
    /// where it ended without one; an error where it could not be run.
    Exited(Result<Option<i32>, IoError>),
    /// The answer to [`Action::ListProcesses`]: one record per process whose
    /// command line could be read.
    Processes(Result<Vec<Vec<u8>>, IoError>),
}

/// The model of an [`Event`].
pub enum EventView {
    Start,
    Kind(PathKind),
    Done(Result<(), IoError>),
    Data(Result<Seq<u8>, IoError>),
    Exited(Result<Option<i32>, IoError>),
    Processes(Result<Seq<Seq<u8>>, IoError>),
}

impl View for Event {
    type V = EventView;

    open spec fn view(&self) -> EventView {
        match self {
            Event::Start => EventView::Start,
            Event::Kind(k) => EventView::Kind(*k),
            Event::Done(r) => EventView::Done(*r),
            Event::Data(r) => EventView::Data(
                match r {
                    Ok(d) => Ok(d@),
                    Err(e) => Err(*e),
                },
            ),
            Event::Exited(r) => EventView::Exited(*r),
            Event::Processes(r) => EventView::Processes(
                match r {
                    Ok(p) => Ok(rows(p@)),
                    Err(e) => Err(*e),
                },
            ),
        }
    }
}

/// The failure that ends a machine which was told something it did not ask for.
pub open spec fn out_of_turn() -> ActionView {
    ActionView::Finish(Err(IoError { code: EPROTO }))
}

/// The request for what is at `path`.
pub open spec fn stat_of(path: Seq<u8>) -> ActionView {
    ActionView::Fs(FsOpView::Stat { path })
}

/// The request to read `path`.
pub open spec fn read_of(path: Seq<u8>) -> ActionView {
    ActionView::Fs(FsOpView::Read { path })
}

/// The request to write `data` to `path`.
pub open spec fn write_of(path: Seq<u8>, data: Seq<u8>) -> ActionView {
    ActionView::Fs(FsOpView::Write { path, data })
}

/// Builds the request for what is at `path`.
pub fn ask_stat(path: &Vec<u8>) -> (action: Action)
    ensures
        action@ == stat_of(path@),
{
    Action::Fs(FsOp::Stat { path: path.clone() })
}

/// Builds the request to read `path`.
pub fn ask_read(path: &Vec<u8>) -> (action: Action)
    ensures
        action@ == read_of(path@),
{
    Action::Fs(FsOp::Read { path: path.clone() })
}

/// Builds the request to write `data` to `path`.
pub fn ask_write(path: &Vec<u8>, data: &Vec<u8>) -> (action: Action)
    ensures
        action@ == write_of(path@, data@),
{
    Action::Fs(FsOp::Write { path: path.clone(), data: data.clone() })
}

} // verus!
