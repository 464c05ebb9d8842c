//! The extraction against the model world: the archive ends up at the
//! destination, in place of whatever stood there.

use crate::extract::{extract_run, ExtractPhase, ExtractView};
use crate::model::{cleared, data_at, kind_at, run, written, World};
use crate::proto::{EventView, PathKind};
use vstd::prelude::*;

verus! {

/// An extraction succeeds after at most three requests. What stood at the
/// destination is gone, with all below it; the destination is a regular file
/// that holds the archive; nothing else has changed.
pub proof fn extract_replaces_destination(blob: Seq<u8>, dest: Seq<u8>, w: World, fuel: nat)
    requires
        fuel >= 3,
    ensures
        ({
            let end = extract_run(ExtractView::begin(blob, dest), EventView::Start, w, fuel);
            &&& end.succeeded()
            &&& end.state.phase == ExtractPhase::Done
            &&& end.world == World { tree: written(cleared(w.tree, dest), dest, blob), ..w }
            &&& kind_at(end.world.tree, dest) == PathKind::File
            &&& data_at(end.world.tree, dest) == blob
        }),
{
    reveal_with_fuel(run, 4);
    let end = extract_run(ExtractView::begin(blob, dest), EventView::Start, w, fuel);
    assert(end.world.tree =~= written(cleared(w.tree, dest), dest, blob));
}

} // verus!
