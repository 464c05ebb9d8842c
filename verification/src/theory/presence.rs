//! The presence check against the model tree: a marker that is a regular file
//! is consumed by the first check that sees it, and nothing else is touched.

use crate::config::ConfigView;
use crate::model::{kind_at, same_at, Tree};
use crate::presence::presence_check;
use crate::proto::PathKind;
use vstd::prelude::*;

verus! {

/// Whatever the answer, a presence check changes nothing but the marker: every
/// other path holds after it what it held before. A marker that is a regular
/// file is gone afterwards; anything else at the marker path stays, and the
/// tree with it.
pub proof fn presence_check_touches_only_marker(cfg: ConfigView, t: Tree, path: Seq<u8>)
    ensures
        path != cfg.sentinel ==> same_at(presence_check(cfg, t).1, t, path),
        kind_at(presence_check(cfg, t).1, cfg.sentinel) != PathKind::File,
        kind_at(t, cfg.sentinel) == PathKind::File ==> presence_check(cfg, t).1 == t.remove(
            cfg.sentinel,
        ),
        kind_at(t, cfg.sentinel) != PathKind::File ==> presence_check(cfg, t).1 == t,
{
}

/// With the module directory in place and the marker a regular file, the first
/// presence check says yes and takes the marker away; the check right after it
/// says no, though the module directory still stands.
pub proof fn marker_is_consumed(cfg: ConfigView, t: Tree)
    requires
        kind_at(t, cfg.module_dir()) != PathKind::Absent,
        kind_at(t, cfg.sentinel) == PathKind::File,
    ensures
        ({
            let first = presence_check(cfg, t);
            let second = presence_check(cfg, first.1);
            &&& first.0
            &&& kind_at(first.1, cfg.sentinel) == PathKind::Absent
            &&& !second.0
            &&& cfg.module_dir() != cfg.sentinel ==> kind_at(first.1, cfg.module_dir())
                == kind_at(t, cfg.module_dir())
            &&& second.1 == first.1
        }),
{
    let first = presence_check(cfg, t);
    let second = presence_check(cfg, first.1);
    assert(second.1 =~= first.1);
}

} // verus!
