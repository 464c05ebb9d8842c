//! The concealment against the model world: once the awaited process shows,
//! it ends with the module directory gone and all else as it was, after a
//! bounded number of attempts to detach the mount.

use crate::conceal::{
    hide_next, hide_run, HidePhase, HideView, POLL_MS, RETRY_MS, UNMOUNT_CEILING_MS,
};
use crate::config::ConfigView;
use crate::model::{cleared, cleared_spares, kind_at, respond, same_at, World};
use crate::path::{any_contains, within};
use crate::proto::{ActionView, EventView, FsOpView, PathKind};
use vstd::prelude::*;

verus! {

/// The most attempts to detach the mount that one concealment makes.
pub open spec fn max_attempts() -> nat {
    (UNMOUNT_CEILING_MS / RETRY_MS) as nat
}

/// Whether look number `first` at the process table is the first from now on
/// that shows a command line with `marker` in it.
pub open spec fn first_seen_at(w: World, marker: Seq<u8>, first: nat) -> bool {
    &&& w.looks <= first
    &&& any_contains((w.table)(first), marker)
    &&& forall|j: nat| w.looks <= j < first ==> !any_contains(#[trigger] (w.table)(j), marker)
}

/// The attempts to detach that may still follow a failed one, given what was
/// charged before it.
pub open spec fn tries_after(spent: u32) -> int {
    if spent + RETRY_MS >= UNMOUNT_CEILING_MS {
        0
    } else {
        (UNMOUNT_CEILING_MS - 1 - spent) / (RETRY_MS as int)
    }
}

/// The most requests that a concealment still makes before it finishes, where
/// look number `first` is the one that shows the awaited process.
pub open spec fn requests_left(s: HideView, w: World, first: nat) -> int {
    match s.phase {
        HidePhase::Start => 2 * (first - w.looks) + 2 * tries_after(s.spent) + 5,
        HidePhase::Scanning => 2 * (first + 1 - w.looks) + 2 * tries_after(s.spent) + 4,
        HidePhase::Napping => 2 * (first - w.looks) + 2 * tries_after(s.spent) + 5,
        HidePhase::ProbeProp => 2 * tries_after(s.spent) + 3,
        HidePhase::Backoff => 2 * tries_after(s.spent) + 3,
        HidePhase::Unmounting => 2 * tries_after(s.spent) + 2,
        HidePhase::ProbeModule => 1,
        HidePhase::Clearing => 0,
        HidePhase::Done => 0,
    }
}

/// Whether the mount is there and never lets go: the property file exists, and
/// every attempt to detach it is refused.
pub open spec fn stuck(module_prop: Seq<u8>, w: World) -> bool {
    kind_at(w.tree, module_prop) != PathKind::Absent && forall|n: nat| #[trigger] (w.busy)(n)
}

/// Whether an answer says that the request failed.
spec fn refused(e: EventView) -> bool {
    e matches EventView::Done(Err(_))
}

/// What holds of a concealment under way, `w0` being the world it started in.
spec fn hiding(s0: HideView, w0: World, first: nat, s: HideView, e: EventView, w: World) -> bool {
    let naps = first - w0.looks;
    let tried = w.detaches - w0.detaches;
    let waited = w0.slept + POLL_MS * naps;
    let all_spent = stuck(s0.module_prop, w0) ==> tried == max_attempts() && w.slept == waited
        + UNMOUNT_CEILING_MS - RETRY_MS;
    &&& s.module_dir == s0.module_dir
    &&& s.module_prop == s0.module_prop
    &&& s.marker == s0.marker
    &&& w.table == w0.table
    &&& w.busy == w0.busy
    &&& w.program == w0.program
    &&& w.exit == w0.exit
    &&& match s.phase {
        HidePhase::Start => e is Start && s.spent == 0 && w == w0,
        HidePhase::Scanning => {
            &&& w.tree == w0.tree
            &&& s.spent == 0
            &&& tried == 0
            &&& w0.looks < w.looks <= first + 1
            &&& e == EventView::Processes(Ok((w.table)((w.looks - 1) as nat)))
            &&& w.slept == w0.slept + POLL_MS * (w.looks - 1 - w0.looks)
        },
        HidePhase::Napping => {
            &&& w.tree == w0.tree
            &&& s.spent == 0
            &&& tried == 0
            &&& w0.looks < w.looks <= first
            &&& e is Done
            &&& w.slept == w0.slept + POLL_MS * (w.looks - w0.looks)
        },
        HidePhase::ProbeProp => {
            &&& w.tree == w0.tree
            &&& s.spent == 0
            &&& tried == 0
            &&& w.looks == first + 1
            &&& e == EventView::Kind(kind_at(w.tree, s0.module_prop))
            &&& w.slept == waited
        },
        HidePhase::Unmounting => {
            &&& w.tree == w0.tree
            &&& w.looks == first + 1
            &&& e is Done
            &&& (w.busy)((w.detaches - 1) as nat) ==> refused(e)
            &&& tried * RETRY_MS == s.spent + RETRY_MS
            &&& s.spent + RETRY_MS <= UNMOUNT_CEILING_MS
            &&& w.slept == waited + s.spent
        },
        HidePhase::Backoff => {
            &&& w.tree == w0.tree
            &&& w.looks == first + 1
            &&& e is Done
            &&& tried * RETRY_MS == s.spent
            &&& s.spent + RETRY_MS <= UNMOUNT_CEILING_MS
            &&& w.slept == waited + s.spent
        },
        HidePhase::ProbeModule => {
            &&& w.tree == w0.tree
            &&& w.looks == first + 1
            &&& e == EventView::Kind(kind_at(w.tree, s0.module_dir))
            &&& tried <= max_attempts()
            &&& w.slept <= waited + UNMOUNT_CEILING_MS - RETRY_MS
            &&& all_spent
        },
        HidePhase::Clearing => {
            &&& w.tree == cleared(w0.tree, s0.module_dir)
            &&& w.looks == first + 1
            &&& e matches EventView::Done(Ok(_))
            &&& tried <= max_attempts()
            &&& w.slept <= waited + UNMOUNT_CEILING_MS - RETRY_MS
            &&& all_spent
        },
        HidePhase::Done => false,
    }
}

/// What holds of the world `w` that a concealment leaves behind, `w0` being
/// the world it started in: the module directory is gone and nothing else has
/// changed; the process table was looked at until the process showed, with a
/// nap between two looks; detaching was tried no more often than allowed, with
/// a pause between two attempts, and exactly as often as allowed where the
/// mount never let go.
pub open spec fn hidden(s: HideView, w0: World, first: nat, w: World) -> bool {
    let naps = first - w0.looks;
    &&& w.tree == cleared(w0.tree, s.module_dir)
    &&& w.looks == first + 1
    &&& w.detaches <= w0.detaches + max_attempts()
    &&& w.slept <= w0.slept + POLL_MS * naps + UNMOUNT_CEILING_MS - RETRY_MS
    &&& stuck(s.module_prop, w0) ==> {
        &&& w.detaches == w0.detaches + max_attempts()
        &&& w.slept == w0.slept + POLL_MS * naps + UNMOUNT_CEILING_MS - RETRY_MS
    }
}

/// What [`hiding`] says holds from any point of a run to its end, and the run
/// ends well within the requests that [`requests_left`] allows.
proof fn hiding_to_the_end(
    s0: HideView,
    w0: World,
    first: nat,
    s: HideView,
    e: EventView,
    w: World,
    fuel: nat,
)
    requires
        first_seen_at(w0, s0.marker, first),
        hiding(s0, w0, first, s, e, w),
        fuel >= requests_left(s, w, first),
    ensures
        hide_run(s, e, w, fuel).succeeded(),
        hidden(s0, w0, first, hide_run(s, e, w, fuel).world),
    decreases fuel,
{
    let (s1, a) = hide_next(s, e);
    if a is Finish {
        assert(w.tree =~= cleared(w0.tree, s0.module_dir));
    } else {
        let w1 = respond(w, a).0;
        let e1 = respond(w, a).1;
        if s.phase == HidePhase::ProbeModule {
            assert(w1.tree =~= cleared(w0.tree, s0.module_dir));
        }
        assert(hiding(s0, w0, first, s1, e1, w1));
        assert(requests_left(s1, w1, first) < requests_left(s, w, first));
        hiding_to_the_end(s0, w0, first, s1, e1, w1, (fuel - 1) as nat);
    }
}

/// Once the awaited process shows, a concealment comes to a successful end
/// with the module directory gone, whether or not the mount could be
/// detached. Before that it has looked at the process table once a second; it
/// has tried to detach the mount two hundred times at most, a tenth of a second
/// apart; and it has changed nothing in the tree but the module directory. A
/// mount that never lets go is tried exactly two hundred times, over 19.9
/// seconds, and the module directory goes all the same.
///
/// `first` is the number of the first look that shows the process.
pub proof fn hide_removes_module(cfg: ConfigView, w: World, first: nat, fuel: nat)
    requires
        first_seen_at(w, cfg.marker, first),
        fuel >= 2 * (first - w.looks) + 2 * max_attempts() + 3,
    ensures
        hide_run(HideView::begin(cfg), EventView::Start, w, fuel).succeeded(),
        hidden(
            HideView::begin(cfg),
            w,
            first,
            hide_run(HideView::begin(cfg), EventView::Start, w, fuel).world,
        ),
{
    let job = HideView::begin(cfg);
    hiding_to_the_end(job, w, first, job, EventView::Start, w, fuel);
}

/// A concealment leaves alone whatever lies apart from the module directory,
/// the marker first of all.
pub proof fn hide_spares_the_rest(
    cfg: ConfigView,
    w: World,
    first: nat,
    fuel: nat,
    path: Seq<u8>,
)
    requires
        first_seen_at(w, cfg.marker, first),
        fuel >= 2 * (first - w.looks) + 2 * max_attempts() + 3,
        !within(path, cfg.module_dir()),
    ensures
        same_at(
            hide_run(HideView::begin(cfg), EventView::Start, w, fuel).world.tree,
            w.tree,
            path,
        ),
{
    hide_removes_module(cfg, w, first, fuel);
    cleared_spares(w.tree, cfg.module_dir(), path);
}

/// What holds of the attempts to detach, `detaches0` being their number when
/// the concealment began.
spec fn within_allowance(detaches0: nat, s: HideView, w: World) -> bool {
    let tried = w.detaches - detaches0;
    match s.phase {
        HidePhase::Start | HidePhase::Scanning | HidePhase::Napping | HidePhase::ProbeProp => tried
            == 0 && s.spent == 0,
        HidePhase::Unmounting => tried * RETRY_MS == s.spent + RETRY_MS && s.spent + RETRY_MS
            <= UNMOUNT_CEILING_MS,
        HidePhase::Backoff => tried * RETRY_MS == s.spent && s.spent + RETRY_MS
            <= UNMOUNT_CEILING_MS,
        _ => 0 <= tried <= max_attempts(),
    }
}

/// What [`within_allowance`] says holds from any point of a run to its end.
proof fn allowance_kept(detaches0: nat, s: HideView, e: EventView, w: World, fuel: nat)
    requires
        within_allowance(detaches0, s, w),
    ensures
        hide_run(s, e, w, fuel).world.detaches <= detaches0 + max_attempts(),
    decreases fuel,
{
    let (s1, a) = hide_next(s, e);
    if !(a is Finish) && fuel > 0 {
        let w1 = respond(w, a).0;
        let e1 = respond(w, a).1;
        assert(within_allowance(detaches0, s1, w1));
        allowance_kept(detaches0, s1, e1, w1, (fuel - 1) as nat);
    }
}

/// However the world answers and however long the run, a concealment tries
/// to detach the mount two hundred times at most.
pub proof fn hide_attempts_are_bounded(cfg: ConfigView, w: World, fuel: nat)
    ensures
        hide_run(HideView::begin(cfg), EventView::Start, w, fuel).world.detaches <= w.detaches
            + max_attempts(),
        max_attempts() == 200,
{
    allowance_kept(w.detaches, HideView::begin(cfg), EventView::Start, w, fuel);
}

/// Whatever it is told, a concealment asks only about the module's property
/// file and the module directory, and it writes nothing: it looks at the two,
/// detaches the first and removes the second.
pub proof fn hide_asks_only_of_the_module(s: HideView, e: EventView)
    ensures
        match hide_next(s, e).1 {
            ActionView::Fs(FsOpView::Stat { path }) => path == s.module_prop || path
                == s.module_dir,
            ActionView::Fs(FsOpView::RemoveFile { path }) => path == s.module_dir,
            ActionView::Fs(FsOpView::RemoveDirAll { path }) => path == s.module_dir,
            ActionView::Fs(_) => false,
            ActionView::Unmount { path } => path == s.module_prop,
            ActionView::Spawn { .. } => false,
            _ => true,
        },
{
}

} // verus!
