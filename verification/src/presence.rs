//! Clearing a path, and telling whether the module counts as installed.

use crate::config::{Config, ConfigView};
use crate::model::{fs_apply, kind_at, Tree};
use crate::proto::{FsOp, FsOpView, PathKind};
use vstd::prelude::*;

verus! {

/// The request that clears `file`, given what is there: none for an absent path,
/// a recursive removal for a directory, an unlink for anything else.
pub open spec fn removal(file: Seq<u8>, kind: PathKind) -> Option<FsOpView> {
    match kind {
        PathKind::Absent => None,
        PathKind::Dir => Some(FsOpView::RemoveDirAll { path: file }),
        _ => Some(FsOpView::RemoveFile { path: file }),
    }
}

/// Decides how to clear `file`, of which `kind` says what is there now.
///
/// An absent path needs nothing done. The caller carries the request out and
/// decides what a failure of it means.
pub fn remove_check(file: &Vec<u8>, kind: PathKind) -> (op: Option<FsOp>)
    ensures
        (match op {
            Some(o) => Some(o@),
            None => None,
        }) == removal(file@, kind),
{
    match kind {
        PathKind::Absent => None,
        PathKind::Dir => Some(FsOp::RemoveDirAll { path: file.clone() }),
        _ => Some(FsOp::RemoveFile { path: file.clone() }),
    }
}

/// The answer of the presence check, and the cleanup that goes with it.
#[derive(Clone, Debug, PartialEq, Eq)]
pub struct Presence {
    /// Whether the module counts as installed.
    pub installed: bool,
    /// The removal that consumes the marker, where a regular file is there.
    /// The caller carries it out and ignores its failure.
    pub cleanup: Option<FsOp>,
}

/// The module counts as installed where its directory exists and the marker is
/// a regular file.
pub open spec fn present(module: PathKind, marker: PathKind) -> bool {
    module != PathKind::Absent && marker == PathKind::File
}

/// The request that consumes the marker: an unlink where a regular file is
/// there. Anything else at the marker path is no marker and is left alone.
pub open spec fn consumption(sentinel: Seq<u8>, marker: PathKind) -> Option<FsOpView> {
    if marker == PathKind::File {
        Some(FsOpView::RemoveFile { path: sentinel })
    } else {
        None
    }
}

/// The presence check as a whole, on a tree: the answer, and the tree once the
/// cleanup was carried out.
pub open spec fn presence_check(cfg: ConfigView, t: Tree) -> (bool, Tree) {
    let module = kind_at(t, cfg.module_dir());
    let marker = kind_at(t, cfg.sentinel);
    (
        present(module, marker),
        match consumption(cfg.sentinel, marker) {
            Some(op) => fs_apply(t, op).0,
            None => t,
        },
    )
}

/// Tells whether the module counts as installed, from what was found at the
/// module directory (`module`) and at the marker path of `cfg` (`marker`).
///
/// Whatever the answer, a marker that is a regular file is consumed: the result
/// carries the request that unlinks it. Nothing else is ever asked for.
pub fn is_rezygisk(cfg: &Config, module: PathKind, marker: PathKind) -> (r: Presence)
    ensures
        r.installed == present(module, marker),
        (match r.cleanup {
            Some(o) => Some(o@),
            None => None,
        }) == consumption(cfg@.sentinel, marker),
{
    let module_there = match module {
        PathKind::Absent => false,
        _ => true,
    };
    match marker {
        PathKind::File => Presence {
            installed: module_there,
            cleanup: Some(FsOp::RemoveFile { path: cfg.sentinel.clone() }),
        },
        _ => Presence { installed: false, cleanup: None },
    }
}

} // verus!
