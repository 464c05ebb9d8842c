//! A model of the world that the operations act on: a file tree, an installer,
//! a table of processes and a mount. It answers each request the way a
//! well-behaved system would, and so says what an operation does when it is
//! driven to its end.

use crate::path::within;
use crate::proto::{
    ActionView, EventView, FsOpView, IoError, PathKind, EBUSY, EISDIR, ENOENT, ENOTDIR,
};
use vstd::prelude::*;

verus! {

/// The permission bits of a file that a write creates.
pub const DEFAULT_MODE: u32 = 0o644;

/// What stands at a path.
pub enum Node {
    /// A regular file with its bytes and permission bits.
    File { data: Seq<u8>, mode: u32 },
    /// A directory.
    Dir,
}

/// A file tree: every path at which something stands, with what stands there.
/// The tree is flat: a directory holds the paths that lie below it by name.
pub type Tree = Map<Seq<u8>, Node>;

/// What is found at `path`.
pub open spec fn kind_at(t: Tree, path: Seq<u8>) -> PathKind {
    if !t.contains_key(path) {
        PathKind::Absent
    } else {
        match t[path] {
            Node::File { .. } => PathKind::File,
            Node::Dir => PathKind::Dir,
        }
    }
}

/// The bytes of the file at `path`; empty where no file is there.
pub open spec fn data_at(t: Tree, path: Seq<u8>) -> Seq<u8> {
    if t.contains_key(path) {
        match t[path] {
            Node::File { data, .. } => data,
            Node::Dir => Seq::empty(),
        }
    } else {
        Seq::empty()
    }
}

/// The permission bits of the file at `path`; those of a new file where no file
/// is there.
pub open spec fn mode_at(t: Tree, path: Seq<u8>) -> u32 {
    if t.contains_key(path) {
        match t[path] {
            Node::File { mode, .. } => mode,
            Node::Dir => DEFAULT_MODE,
        }
    } else {
        DEFAULT_MODE
    }
}

/// The tree without `root` and all that lies below it.
pub open spec fn without(t: Tree, root: Seq<u8>) -> Tree {
    t.restrict(Set::new(|p: Seq<u8>| !within(p, root)))
}

/// The tree after `path` was cleared the way [`crate::presence::removal`]
/// decides: a directory goes with all below it, a file goes alone.
pub open spec fn cleared(t: Tree, path: Seq<u8>) -> Tree {
    match kind_at(t, path) {
        PathKind::Dir => without(t, path),
        _ => t.remove(path),
    }
}

/// Clearing a path changes nothing that is neither it nor below it.
pub proof fn cleared_spares(t: Tree, root: Seq<u8>, path: Seq<u8>)
    requires
        !within(path, root),
    ensures
        same_at(cleared(t, root), t, path),
{
}

/// Clearing a path at which nothing stands changes nothing.
pub proof fn cleared_absent(t: Tree, path: Seq<u8>)
    requires
        kind_at(t, path) == PathKind::Absent,
    ensures
        cleared(t, path) == t,
{
    assert(cleared(t, path) =~= t);
}

/// Whether two trees hold the same at `path`.
pub open spec fn same_at(t: Tree, u: Tree, path: Seq<u8>) -> bool {
    t.contains_key(path) == u.contains_key(path) && (t.contains_key(path) ==> t[path] == u[path])
}

/// Whether two trees hold the same at every path that is neither `root` nor
/// below it.
pub open spec fn agree_outside(t: Tree, u: Tree, root: Seq<u8>) -> bool {
    forall|p: Seq<u8>| !within(p, root) ==> same_at(t, u, p)
}

/// Whether two trees hold the same at `root` and at every path below it.
pub open spec fn agree_within(t: Tree, u: Tree, root: Seq<u8>) -> bool {
    forall|p: Seq<u8>| within(p, root) ==> same_at(t, u, p)
}

/// Whether `root` is a directory wherever something lies below it.
pub open spec fn tidy_at(t: Tree, root: Seq<u8>) -> bool {
    forall|p: Seq<u8>|
        t.contains_key(p) && within(p, root) && p != root ==> kind_at(t, root) == PathKind::Dir
}

/// The tree after `data` was written to `path`: a file that was there keeps its
/// permission bits.
pub open spec fn written(t: Tree, path: Seq<u8>, data: Seq<u8>) -> Tree {
    t.insert(path, Node::File { data, mode: mode_at(t, path) })
}

/// What one request does to a tree, and how it is answered.
pub open spec fn fs_apply(t: Tree, op: FsOpView) -> (Tree, EventView) {
    match op {
        FsOpView::Stat { path } => (t, EventView::Kind(kind_at(t, path))),
        FsOpView::Read { path } => match kind_at(t, path) {
            PathKind::File => (t, EventView::Data(Ok(data_at(t, path)))),
            PathKind::Dir => (t, EventView::Data(Err(IoError { code: EISDIR }))),
            _ => (t, EventView::Data(Err(IoError { code: ENOENT }))),
        },
        FsOpView::Write { path, data } => match kind_at(t, path) {
            PathKind::Dir => (t, EventView::Done(Err(IoError { code: EISDIR }))),
            _ => (written(t, path, data), EventView::Done(Ok(()))),
        },
        FsOpView::SetMode { path, mode } => match kind_at(t, path) {
            PathKind::File => (
                t.insert(path, Node::File { data: data_at(t, path), mode }),
                EventView::Done(Ok(())),
            ),
            PathKind::Dir => (t, EventView::Done(Ok(()))),
            _ => (t, EventView::Done(Err(IoError { code: ENOENT }))),
        },
        FsOpView::RemoveFile { path } => match kind_at(t, path) {
            PathKind::File => (t.remove(path), EventView::Done(Ok(()))),
            PathKind::Dir => (t, EventView::Done(Err(IoError { code: EISDIR }))),
            _ => (t, EventView::Done(Err(IoError { code: ENOENT }))),
        },
        FsOpView::RemoveDirAll { path } => match kind_at(t, path) {
            PathKind::Dir => (without(t, path), EventView::Done(Ok(()))),
            PathKind::File => (t, EventView::Done(Err(IoError { code: ENOTDIR }))),
            _ => (t, EventView::Done(Err(IoError { code: ENOENT }))),
        },
    }
}

/// The world around an operation. Besides the file tree it holds what the
/// operation cannot know beforehand: what a program that is run does to the
/// tree and how it ends, which processes each look at the process table shows,
/// and which attempts to detach the mount are refused. It also keeps count of
/// what was asked of it, and a record of the writes it refused.
pub struct World {
    /// The file tree.
    pub tree: Tree,
    /// What running a program does to the tree.
    pub program: spec_fn(Tree) -> Tree,
    /// How a program that is run ends.
    pub exit: Result<Option<i32>, IoError>,
    /// The command lines that the look with the given number shows.
    pub table: spec_fn(nat) -> Seq<Seq<u8>>,
    /// Whether the attempt to detach with the given number is refused.
    pub busy: spec_fn(nat) -> bool,
    /// How often the process table was looked at.
    pub looks: nat,
    /// How often detaching the mount was tried.
    pub detaches: nat,
    /// The milliseconds spent asleep.
    pub slept: nat,
    /// The paths to which a write was refused.
    pub refused: Set<Seq<u8>>,
}

/// The paths to which a write was refused, after one more request.
pub open spec fn refused_after(w: World, op: FsOpView) -> Set<Seq<u8>> {
    match op {
        FsOpView::Write { path, .. } => if kind_at(w.tree, path) == PathKind::Dir {
            w.refused.insert(path)
        } else {
            w.refused
        },
        _ => w.refused,
    }
}

/// What one request does to the world, and how it is answered. A program that
/// cannot be run leaves the tree alone.
pub open spec fn respond(w: World, a: ActionView) -> (World, EventView) {
    match a {
        ActionView::Fs(op) => (
            World { tree: fs_apply(w.tree, op).0, refused: refused_after(w, op), ..w },
            fs_apply(w.tree, op).1,
        ),
        ActionView::Spawn { .. } => match w.exit {
            Ok(code) => (World { tree: (w.program)(w.tree), ..w }, EventView::Exited(Ok(code))),
            Err(e) => (w, EventView::Exited(Err(e))),
        },
        ActionView::ListProcesses => (
            World { looks: w.looks + 1, ..w },
            EventView::Processes(Ok((w.table)(w.looks))),
        ),
        ActionView::Sleep { millis } => (
            World { slept: w.slept + millis as nat, ..w },
            EventView::Done(Ok(())),
        ),
        ActionView::Unmount { .. } => (
            World { detaches: w.detaches + 1, ..w },
            EventView::Done(
                if (w.busy)(w.detaches) {
                    Err(IoError { code: EBUSY })
                } else {
                    Ok(())
                },
            ),
        ),
        ActionView::Finish(_) => (w, EventView::Start),
    }
}

/// Where a run has got to.
pub struct Outcome<S> {
    /// The machine's state.
    pub state: S,
    /// The world as the run left it.
    pub world: World,
    /// The result of the operation, if the run reached its end.
    pub result: Option<Result<(), IoError>>,
}

impl<S> Outcome<S> {
    /// Whether the run reached its end and the operation succeeded.
    pub open spec fn succeeded(self) -> bool {
        self.result matches Some(Ok(_))
    }
}

/// Drives a machine against the world: the machine in state `s` is told `e`,
/// each of its requests is answered by the world, and so on until the machine
/// finishes or `fuel` requests were answered.
pub open spec fn run<S>(
    step: spec_fn(S, EventView) -> (S, ActionView),
    s: S,
    e: EventView,
    w: World,
    fuel: nat,
) -> Outcome<S>
    decreases fuel,
{
    let (s1, a) = step(s, e);
    match a {
        ActionView::Finish(r) => Outcome { state: s1, world: w, result: Some(r) },
        _ => if fuel == 0 {
            Outcome { state: s1, world: w, result: None }
        } else {
            run(step, s1, respond(w, a).1, respond(w, a).0, (fuel - 1) as nat)
        },
    }
}

} // verus!
