//! The installation against the model world.
//!
//! Whatever the world answers, an installation ends within seventeen requests,
//! and where the payload or the utility script is missing it ends at once with
//! nothing touched. However it ends, it has put the utility script back,
//! whatever the installer did meanwhile and even where the installer could not
//! be started. One that succeeds has used the payload up and left a fresh
//! marker; a second one right after it finds nothing to do. Where an
//! installation goes through, the tree it leaves is known exactly: the module
//! directory is replaced, and installing again with a fresh payload leaves the
//! same tree.

use crate::config::{installer_at, installer_name, util_at, util_name, ConfigView};
use crate::install::{install_next, install_run, InstallPhase, InstallView, INSTALLER_MODE};
use crate::model::{
    agree_outside, agree_within, cleared, cleared_absent, data_at, kind_at, respond, run, same_at,
    tidy_at, written, Node, Tree, World,
};
use crate::path::{roots_of_one_path_nest, within, SEP};
use crate::proto::{read_of, stat_of, write_of, ActionView, EventView, IoError, PathKind};
use vstd::prelude::*;

verus! {

/// The number of requests an installation in this phase makes at most before
/// it finishes.
pub open spec fn requests_left(phase: InstallPhase) -> nat {
    match phase {
        InstallPhase::Start => 17,
        InstallPhase::ProbePayload => 16,
        InstallPhase::ProbeUtil => 15,
        InstallPhase::ProbeModule => 14,
        InstallPhase::ClearModule => 13,
        InstallPhase::ProbeInstaller => 12,
        InstallPhase::ClearInstaller => 11,
        InstallPhase::WriteInstaller => 10,
        InstallPhase::ChmodInstaller => 9,
        InstallPhase::ReadUtil => 8,
        InstallPhase::PatchUtil => 7,
        InstallPhase::RunInstaller => 6,
        InstallPhase::RestoreUtil => 5,
        InstallPhase::RevertUtil(_) => 0,
        InstallPhase::ProbeSpent => 4,
        InstallPhase::ClearSpent => 3,
        InstallPhase::ProbeSentinel => 2,
        InstallPhase::ClearSentinel => 1,
        InstallPhase::MarkInstalled => 0,
        InstallPhase::Done => 0,
    }
}

/// Whatever it is told, an installation finishes after the number of requests
/// that its phase allows: seventeen from the start.
pub proof fn install_finishes(s: InstallView, e: EventView, w: World, fuel: nat)
    requires
        fuel >= requests_left(s.phase),
    ensures
        install_run(s, e, w, fuel).result is Some,
        install_run(s, e, w, fuel).state.phase == InstallPhase::Done,
    decreases fuel,
{
    let (s1, a) = install_next(s, e);
    if !(a is Finish) {
        assert(requests_left(s1.phase) < requests_left(s.phase));
        install_finishes(s1, respond(w, a).1, respond(w, a).0, (fuel - 1) as nat);
    }
}

/// The installer helper's path is two bytes longer than the utility
/// script's, whatever the secure directory.
proof fn helper_path_is_longer(secure_dir: Seq<u8>)
    ensures
        installer_at(secure_dir).len() == util_at(secure_dir).len() + 2,
{
    reveal_strlit("magisk/module_installer.sh");
    reveal_strlit("magisk/util_functions.sh");
    assert(installer_name().len() == 26);
    assert(util_name().len() == 24);
    assert(installer_name()[0] == 109u8);
    assert(util_name()[0] == 109u8);
}

/// The two scripts below one secure directory never share a path.
pub proof fn scripts_apart(secure_dir: Seq<u8>)
    ensures
        installer_at(secure_dir) != util_at(secure_dir),
{
    helper_path_is_longer(secure_dir);
}

/// The utility script never lies below the installer helper.
pub proof fn scripts_not_nested(secure_dir: Seq<u8>)
    ensures
        !within(util_at(secure_dir), installer_at(secure_dir)),
{
    helper_path_is_longer(secure_dir);
    assert((installer_at(secure_dir) + seq![SEP]).len() > util_at(secure_dir).len());
}

/// Whether two installations work on the same places with the same scripts.
pub open spec fn same_job(s: InstallView, s0: InstallView) -> bool {
    &&& s.payload == s0.payload
    &&& s.module_dir == s0.module_dir
    &&& s.installer == s0.installer
    &&& s.util == s0.util
    &&& s.sentinel == s0.sentinel
    &&& s.installer_script == s0.installer_script
    &&& s.util_script == s0.util_script
}

/// Whether `path` holds in `t` what it held in `t0`: the same kind of thing,
/// and for a file the same bytes.
pub open spec fn same_content(t: Tree, t0: Tree, path: Seq<u8>) -> bool {
    kind_at(t, path) == kind_at(t0, path) && data_at(t, path) == data_at(t0, path)
}

/// Whether an answer says that the request was carried out.
spec fn carried_out(e: EventView) -> bool {
    e matches EventView::Done(Ok(_))
}

/// Whether an answer says that the request was refused.
spec fn turned_down(e: EventView) -> bool {
    e matches EventView::Done(Err(_))
}

/// From the moment it has asked for the utility script's contents, an
/// installation knows the script's bytes as they stood in `read`, and either
/// has them back in place or is about to write them back.
spec fn settling(s0: InstallView, read: Tree, s: InstallView, e: EventView, w: World) -> bool {
    let u = s0.util;
    let t = w.tree;
    let kept = data_at(read, u);
    let was_file = kind_at(read, u) == PathKind::File;
    let back = kind_at(t, u) == PathKind::File && data_at(t, u) == kept;
    let written_back = {
        &&& e is Done
        &&& carried_out(e) ==> back
        &&& turned_down(e) ==> w.refused.contains(u)
    };
    &&& same_job(s, s0)
    &&& match s.phase {
        InstallPhase::ReadUtil => {
            &&& e is Data
            &&& same_content(t, read, u)
            &&& e matches EventView::Data(Ok(d)) ==> was_file && d == kept
        },
        InstallPhase::PatchUtil => {
            &&& was_file
            &&& s.saved == kept
            &&& e is Done
            &&& turned_down(e) ==> w.refused.contains(u)
        },
        InstallPhase::RunInstaller => was_file && s.saved == kept && e is Exited,
        InstallPhase::RestoreUtil | InstallPhase::RevertUtil(_) => was_file && written_back,
        InstallPhase::ProbeSpent
        | InstallPhase::ClearSpent
        | InstallPhase::ProbeSentinel
        | InstallPhase::ClearSentinel
        | InstallPhase::MarkInstalled => was_file && back,
        _ => false,
    }
}

/// What [`settling`] says holds from any point of a run to its end: however
/// the run ends, the utility script is as it was read, unless a write to it was
/// refused; and a run that ends well has read a regular file.
proof fn settling_to_the_end(
    s0: InstallView,
    read: Tree,
    s: InstallView,
    e: EventView,
    w: World,
    fuel: nat,
)
    requires
        !within(s0.util, s0.payload),
        !within(s0.util, s0.sentinel),
        settling(s0, read, s, e, w),
    ensures
        ({
            let end = install_run(s, e, w, fuel);
            &&& end.result is Some && !end.world.refused.contains(s0.util) ==> same_content(
                end.world.tree,
                read,
                s0.util,
            )
            &&& end.succeeded() ==> kind_at(read, s0.util) == PathKind::File
        }),
    decreases fuel,
{
    let (s1, a) = install_next(s, e);
    if !(a is Finish) && fuel > 0 {
        let w1 = respond(w, a).0;
        let e1 = respond(w, a).1;
        assert(settling(s0, read, s1, e1, w1));
        settling_to_the_end(s0, read, s1, e1, w1, (fuel - 1) as nat);
    }
}

/// Until it asks for the utility script's contents, an installation leaves
/// the script as it was in `t0`, unless the script lies in the module directory
/// and went with it.
spec fn before_read(s0: InstallView, t0: Tree, s: InstallView, w: World) -> bool {
    let u = s0.util;
    let t = w.tree;
    &&& same_job(s, s0)
    &&& match s.phase {
        InstallPhase::Start | InstallPhase::ProbePayload | InstallPhase::ProbeUtil => t == t0,
        InstallPhase::ProbeModule
        | InstallPhase::ClearModule
        | InstallPhase::ProbeInstaller
        | InstallPhase::ClearInstaller
        | InstallPhase::WriteInstaller
        | InstallPhase::ChmodInstaller => {
            &&& same_at(t, t0, u) || !t.contains_key(u)
            &&& !within(u, s0.module_dir) ==> same_at(t, t0, u)
        },
        _ => false,
    }
}

/// What [`before_read`] says holds up to the read, and [`settling`] from
/// there to the end of the run.
proof fn util_kept_to_the_end(
    s0: InstallView,
    t0: Tree,
    s: InstallView,
    e: EventView,
    w: World,
    fuel: nat,
)
    requires
        s0.installer != s0.util,
        !within(s0.util, s0.installer),
        !within(s0.util, s0.payload),
        !within(s0.util, s0.sentinel),
        before_read(s0, t0, s, w),
    ensures
        ({
            let end = install_run(s, e, w, fuel);
            end.result is Some && !end.world.refused.contains(s0.util) && (end.succeeded()
                || !within(s0.util, s0.module_dir)) ==> same_content(
                end.world.tree,
                t0,
                s0.util,
            )
        }),
    decreases fuel,
{
    let (s1, a) = install_next(s, e);
    if !(a is Finish) && fuel > 0 {
        let w1 = respond(w, a).0;
        let e1 = respond(w, a).1;
        if s1.phase == InstallPhase::ReadUtil {
            assert(settling(s0, w1.tree, s1, e1, w1));
            settling_to_the_end(s0, w1.tree, s1, e1, w1, (fuel - 1) as nat);
        } else {
            assert(before_read(s0, t0, s1, w1));
            util_kept_to_the_end(s0, t0, s1, e1, w1, (fuel - 1) as nat);
        }
    }
}

/// However an installation ends, well or with a failure, it leaves the
/// utility script as it found it: a file before is a file after, with the same
/// bytes. This holds whatever the installer does to the tree, however it exits
/// and even where it cannot be started, for every payload path and marker path
/// that the utility script does not lie at or below.
///
/// Two runs are left out. One is a run in which a write to the script itself
/// was refused. The other is a run that fails with the script inside the module
/// directory: the script goes when the directory is cleared, and the
/// installation ends before it has read anything.
pub proof fn install_restores_util(
    cfg: ConfigView,
    installer_script: Seq<u8>,
    util_script: Seq<u8>,
    payload: Seq<u8>,
    secure_dir: Seq<u8>,
    w: World,
    fuel: nat,
)
    requires
        !within(util_at(secure_dir), payload),
        !within(util_at(secure_dir), cfg.sentinel),
    ensures
        ({
            let job = InstallView::begin(cfg, installer_script, util_script, payload, secure_dir);
            let end = install_run(job, EventView::Start, w, fuel);
            let util = util_at(secure_dir);
            end.result is Some && !end.world.refused.contains(util) && (end.succeeded()
                || !within(util, cfg.module_dir())) ==> same_content(end.world.tree, w.tree, util)
        }),
{
    let job = InstallView::begin(cfg, installer_script, util_script, payload, secure_dir);
    scripts_apart(secure_dir);
    scripts_not_nested(secure_dir);
    util_kept_to_the_end(job, w.tree, job, EventView::Start, w, fuel);
}

/// An installation that has got as far as reading the utility script leaves
/// the script, however it ends, as it stood when it was read. `s` is the
/// installation as it waits for the script's contents and `w` the world that
/// answers; the one run left out is a run in which a write to the script itself
/// was refused.
pub proof fn install_restores_what_it_read(s: InstallView, w: World, fuel: nat)
    requires
        s.phase == InstallPhase::ReadUtil,
        !within(s.util, s.payload),
        !within(s.util, s.sentinel),
    ensures
        ({
            let asked = respond(w, read_of(s.util));
            let end = install_run(s, asked.1, asked.0, fuel);
            end.result is Some && !end.world.refused.contains(s.util) ==> same_content(
                end.world.tree,
                w.tree,
                s.util,
            )
        }),
{
    let w1 = respond(w, read_of(s.util)).0;
    let e1 = respond(w, read_of(s.util)).1;
    assert(settling(s, w.tree, s, e1, w1));
    settling_to_the_end(s, w.tree, s, e1, w1, fuel);
}

/// Whether a request says that the operation is over and succeeded.
pub open spec fn ended_well(a: ActionView) -> bool {
    a matches ActionView::Finish(Ok(_))
}

/// Until both the payload and the utility script were found to be regular
/// files, an installation asks for nothing but what stands at the two paths;
/// where either is anything else it ends at once, successfully. So it never
/// asks for any change unless both are in place, on whatever system it runs.
pub proof fn asks_no_change_when_unready(s: InstallView, payload: PathKind, util: PathKind)
    requires
        s.phase == InstallPhase::Start,
    ensures
        ({
            let (probing, first) = install_next(s, EventView::Start);
            let (next, second) = install_next(probing, EventView::Kind(payload));
            let (last, third) = install_next(next, EventView::Kind(util));
            &&& first == stat_of(s.payload)
            &&& payload != PathKind::File ==> ended_well(second)
            &&& payload == PathKind::File ==> second == stat_of(s.util)
            &&& payload == PathKind::File && util != PathKind::File ==> ended_well(third)
        }),
{
}

/// What an installation writes back over the utility script is, byte for byte,
/// what it read there before the installer ran. This holds of every
/// installation that has asked for the script's contents, however the installer
/// exits and also where it cannot be started.
pub proof fn restore_writes_what_was_read(
    s: InstallView,
    data: Seq<u8>,
    exit: Result<Option<i32>, IoError>,
)
    requires
        s.phase == InstallPhase::ReadUtil,
    ensures
        ({
            let patching = install_next(s, EventView::Data(Ok(data))).0;
            let running = install_next(patching, EventView::Done(Ok(()))).0;
            install_next(running, EventView::Exited(exit)).1 == write_of(s.util, data)
        }),
{
}

/// Where the installer cannot be started, the installation ends with that
/// failure, but only once the write-back of the utility script was answered,
/// whatever the answer.
pub proof fn failed_start_is_reported_last(
    s: InstallView,
    failure: IoError,
    answer: Result<(), IoError>,
)
    requires
        s.phase == InstallPhase::RunInstaller,
    ensures
        ({
            let (reverting, ask) = install_next(s, EventView::Exited(Err(failure)));
            &&& ask == write_of(s.util, s.saved)
            &&& install_next(reverting, EventView::Done(answer)).1 == ActionView::Finish(
                Err(failure),
            )
        }),
{
}

/// Whether an installation goes ahead in a tree: the payload and the utility
/// script are both regular files.
pub open spec fn ready(t: Tree, payload: Seq<u8>, util: Seq<u8>) -> bool {
    kind_at(t, payload) == PathKind::File && kind_at(t, util) == PathKind::File
}

/// Where the payload or the utility script is no regular file, an installation
/// ends at once and successfully, and leaves the whole world as it was: no file
/// is touched and no program is run.
pub proof fn install_idle_when_unready(
    cfg: ConfigView,
    installer_script: Seq<u8>,
    util_script: Seq<u8>,
    payload: Seq<u8>,
    secure_dir: Seq<u8>,
    w: World,
    fuel: nat,
)
    requires
        !ready(w.tree, payload, util_at(secure_dir)),
        fuel >= 2,
    ensures
        ({
            let job = InstallView::begin(cfg, installer_script, util_script, payload, secure_dir);
            let end = install_run(job, EventView::Start, w, fuel);
            &&& end.succeeded()
            &&& end.world == w
            &&& end.state == job.at(InstallPhase::Done)
        }),
{
    reveal_with_fuel(run, 3);
    let job = InstallView::begin(cfg, installer_script, util_script, payload, secure_dir);
    let end = install_run(job, EventView::Start, w, fuel);
    assert(end.world.tree =~= w.tree);
}

/// Whether the marker stands in `t` as a finished installation leaves it: an
/// empty regular file.
pub open spec fn marked(t: Tree, sentinel: Seq<u8>) -> bool {
    kind_at(t, sentinel) == PathKind::File && data_at(t, sentinel) == Seq::<u8>::empty()
}

/// An installation either finds nothing to do in the tree it started from, or
/// has used its payload up by the time it turns to the marker, and leaves the
/// marker fresh.
spec fn payload_spent(s0: InstallView, t0: Tree, s: InstallView, e: EventView, w: World) -> bool {
    let t = w.tree;
    let went_ahead = ready(t0, s0.payload, s0.util);
    let gone = !t.contains_key(s0.payload);
    &&& same_job(s, s0)
    &&& match s.phase {
        InstallPhase::Start => t == t0,
        InstallPhase::ProbePayload => t == t0 && (e matches EventView::Kind(k) ==> k == kind_at(
            t,
            s0.payload,
        )),
        InstallPhase::ProbeUtil => {
            &&& t == t0
            &&& kind_at(t0, s0.payload) == PathKind::File
            &&& e matches EventView::Kind(k) ==> k == kind_at(t, s0.util)
        },
        InstallPhase::ProbeSpent => went_ahead && (e matches EventView::Kind(k) ==> k == kind_at(
            t,
            s0.payload,
        )),
        InstallPhase::ClearSpent => went_ahead && (e matches EventView::Done(Ok(_)) ==> gone),
        InstallPhase::ProbeSentinel | InstallPhase::ClearSentinel => went_ahead && gone,
        InstallPhase::MarkInstalled => went_ahead && (e matches EventView::Done(Ok(_)) ==> gone
            && marked(t, s0.sentinel)),
        InstallPhase::Done => true,
        _ => went_ahead,
    }
}

/// What [`payload_spent`] says holds from any point of a run to its end, and
/// a run that ends well leaves no payload to install from.
proof fn payload_spent_to_the_end(
    s0: InstallView,
    t0: Tree,
    s: InstallView,
    e: EventView,
    w: World,
    fuel: nat,
)
    requires
        s0.payload != s0.sentinel,
        payload_spent(s0, t0, s, e, w),
    ensures
        ({
            let end = install_run(s, e, w, fuel);
            end.succeeded() ==> {
                &&& !ready(end.world.tree, s0.payload, s0.util)
                &&& ready(t0, s0.payload, s0.util) ==> !end.world.tree.contains_key(s0.payload)
                    && marked(end.world.tree, s0.sentinel)
            }
        }),
    decreases fuel,
{
    let (s1, a) = install_next(s, e);
    if !(a is Finish) && fuel > 0 {
        let w1 = respond(w, a).0;
        let e1 = respond(w, a).1;
        assert(payload_spent(s0, t0, s1, e1, w1));
        payload_spent_to_the_end(s0, t0, s1, e1, w1, (fuel - 1) as nat);
    }
}

/// An installation that went ahead and succeeded has used its payload up and
/// left a fresh marker: nothing stands at the payload path, and the marker is an
/// empty regular file. This holds whatever the installer does, for every
/// payload path but the marker's own.
pub proof fn install_spends_payload_and_marks(
    cfg: ConfigView,
    installer_script: Seq<u8>,
    util_script: Seq<u8>,
    payload: Seq<u8>,
    secure_dir: Seq<u8>,
    w: World,
    fuel: nat,
)
    requires
        payload != cfg.sentinel,
        ready(w.tree, payload, util_at(secure_dir)),
    ensures
        ({
            let job = InstallView::begin(cfg, installer_script, util_script, payload, secure_dir);
            let end = install_run(job, EventView::Start, w, fuel);
            end.succeeded() ==> !end.world.tree.contains_key(payload) && marked(
                end.world.tree,
                cfg.sentinel,
            )
        }),
{
    let job = InstallView::begin(cfg, installer_script, util_script, payload, secure_dir);
    payload_spent_to_the_end(job, w.tree, job, EventView::Start, w, fuel);
}

/// Installing twice in a row comes to the same as installing once: after an
/// installation that succeeded, a second one with the same paths finds the
/// payload used up (or found nothing to do, as the first did), ends at once and
/// successfully, and leaves the world as the first left it. This holds
/// whatever the installer does, for every payload path but the marker's own.
pub proof fn install_twice_is_install_once(
    cfg: ConfigView,
    installer_script: Seq<u8>,
    util_script: Seq<u8>,
    payload: Seq<u8>,
    secure_dir: Seq<u8>,
    w: World,
    fuel: nat,
    again: nat,
)
    requires
        payload != cfg.sentinel,
        again >= 2,
    ensures
        ({
            let job = InstallView::begin(cfg, installer_script, util_script, payload, secure_dir);
            let once = install_run(job, EventView::Start, w, fuel);
            let twice = install_run(job, EventView::Start, once.world, again);
            once.succeeded() ==> twice.succeeded() && twice.world == once.world
        }),
{
    let job = InstallView::begin(cfg, installer_script, util_script, payload, secure_dir);
    let once = install_run(job, EventView::Start, w, fuel);
    payload_spent_to_the_end(job, w.tree, job, EventView::Start, w, fuel);
    if once.succeeded() {
        install_idle_when_unready(
            cfg,
            installer_script,
            util_script,
            payload,
            secure_dir,
            once.world,
            again,
        );
    }
}

/// The tree with the installer helper in place: a regular file that is there
/// stays as it is; anything else gives way to the helper script, made
/// executable.
pub open spec fn helper_ensured(t: Tree, installer: Seq<u8>, script: Seq<u8>) -> Tree {
    if kind_at(t, installer) == PathKind::File {
        t
    } else {
        let fresh = written(cleared(t, installer), installer, script);
        fresh.insert(
            installer,
            Node::File { data: data_at(fresh, installer), mode: INSTALLER_MODE },
        )
    }
}

/// The tree as the installer finds it: the stale module directory cleared, the
/// helper in place, and the stand-in written over the utility script.
pub open spec fn staged(s: InstallView, t: Tree) -> Tree {
    written(
        helper_ensured(cleared(t, s.module_dir), s.installer, s.installer_script),
        s.util,
        s.util_script,
    )
}

/// The tree that an installation leaves behind, given the tree as the
/// installer left it and the bytes that the utility script held: the utility
/// script written back, the payload removed, and the marker replaced by an
/// empty file.
pub open spec fn settled(s: InstallView, left: Tree, kept: Seq<u8>) -> Tree {
    let restored = written(left, s.util, kept);
    let spent = cleared(restored, s.payload);
    written(cleared(spent, s.sentinel), s.sentinel, Seq::empty())
}

/// The tree that an installation which goes through leaves behind.
pub open spec fn installed(s: InstallView, program: spec_fn(Tree) -> Tree, t: Tree) -> Tree {
    settled(s, program(staged(s, t)), data_at(t, s.util))
}

/// An installation that goes through is, in each phase, exactly as far as
/// that phase says, and was told the truth.
spec fn on_course(s0: InstallView, w0: World, s: InstallView, e: EventView, w: World) -> bool {
    let t0 = w0.tree;
    let t = w.tree;
    let kept = data_at(t0, s0.util);
    let bare = cleared(t0, s0.module_dir);
    let helped = helper_ensured(bare, s0.installer, s0.installer_script);
    let left = (w0.program)(staged(s0, t0));
    let restored = written(left, s0.util, kept);
    let spent = cleared(restored, s0.payload);
    let went_well = e matches EventView::Done(Ok(_));
    &&& same_job(s, s0)
    &&& w == World { tree: t, ..w0 }
    &&& w0.exit is Ok
    &&& s.status == (if requests_left(s.phase) <= 5 && s.phase != InstallPhase::Done {
        Some(w0.exit->Ok_0)
    } else {
        s0.status
    })
    &&& match s.phase {
        InstallPhase::Start => t == t0 && e is Start,
        InstallPhase::ProbePayload => t == t0 && e == EventView::Kind(kind_at(t0, s0.payload)),
        InstallPhase::ProbeUtil => t == t0 && e == EventView::Kind(kind_at(t0, s0.util)),
        InstallPhase::ProbeModule => t == t0 && e == EventView::Kind(kind_at(t0, s0.module_dir)),
        InstallPhase::ClearModule => t == bare && went_well,
        InstallPhase::ProbeInstaller => t == bare && e == EventView::Kind(
            kind_at(bare, s0.installer),
        ),
        InstallPhase::ClearInstaller => t == cleared(bare, s0.installer) && went_well && kind_at(
            bare,
            s0.installer,
        ) != PathKind::File,
        InstallPhase::WriteInstaller => t == written(
            cleared(bare, s0.installer),
            s0.installer,
            s0.installer_script,
        ) && went_well && kind_at(bare, s0.installer) != PathKind::File,
        InstallPhase::ChmodInstaller => t == helped && went_well,
        InstallPhase::ReadUtil => t == helped && e == EventView::Data(
            Ok::<Seq<u8>, crate::proto::IoError>(kept),
        ),
        InstallPhase::PatchUtil => t == staged(s0, t0) && went_well && s.saved == kept,
        InstallPhase::RunInstaller => t == left && e == EventView::Exited(w0.exit) && s.saved
            == kept,
        InstallPhase::RestoreUtil => t == restored && went_well,
        InstallPhase::ProbeSpent => t == restored && e == EventView::Kind(
            kind_at(restored, s0.payload),
        ),
        InstallPhase::ClearSpent => t == spent && went_well,
        InstallPhase::ProbeSentinel => t == spent && e == EventView::Kind(
            kind_at(spent, s0.sentinel),
        ),
        InstallPhase::ClearSentinel => t == cleared(spent, s0.sentinel) && went_well,
        InstallPhase::MarkInstalled => t == installed(s0, w0.program, t0) && went_well,
        InstallPhase::RevertUtil(_) | InstallPhase::Done => false,
    }
}

/// An installation that is on course stays so, and ends well with the tree
/// that [`installed`] names.
proof fn on_course_to_the_end(
    s0: InstallView,
    w0: World,
    s: InstallView,
    e: EventView,
    w: World,
    fuel: nat,
)
    requires
        ready(w0.tree, s0.payload, s0.util),
        s0.installer != s0.util,
        !within(s0.util, s0.module_dir),
        !within(s0.util, s0.installer),
        kind_at((w0.program)(staged(s0, w0.tree)), s0.util) != PathKind::Dir,
        on_course(s0, w0, s, e, w),
        fuel >= requests_left(s.phase),
    ensures
        ({
            let end = install_run(s, e, w, fuel);
            &&& end.succeeded()
            &&& end.world == World { tree: installed(s0, w0.program, w0.tree), ..w0 }
            &&& end.state.status == Some(w0.exit->Ok_0)
        }),
    decreases fuel,
{
    let (s1, a) = install_next(s, e);
    if !(a is Finish) {
        let w1 = respond(w, a).0;
        let e1 = respond(w, a).1;
        let t0 = w0.tree;
        let bare = cleared(t0, s0.module_dir);
        let helped = helper_ensured(bare, s0.installer, s0.installer_script);
        let restored = written((w0.program)(staged(s0, t0)), s0.util, data_at(t0, s0.util));
        let spent = cleared(restored, s0.payload);
        match s.phase {
            InstallPhase::ProbeModule => {
                if kind_at(t0, s0.module_dir) == PathKind::Absent {
                    cleared_absent(t0, s0.module_dir);
                }
            },
            InstallPhase::ProbeInstaller => {
                if kind_at(bare, s0.installer) == PathKind::Absent {
                    cleared_absent(bare, s0.installer);
                }
            },
            InstallPhase::ProbeSpent => {
                if kind_at(restored, s0.payload) == PathKind::Absent {
                    cleared_absent(restored, s0.payload);
                }
            },
            InstallPhase::ProbeSentinel => {
                if kind_at(spent, s0.sentinel) == PathKind::Absent {
                    cleared_absent(spent, s0.sentinel);
                }
            },
            _ => {},
        }
        assert(on_course(s0, w0, s1, e1, w1));
        assert(requests_left(s1.phase) < requests_left(s.phase));
        on_course_to_the_end(s0, w0, s1, e1, w1, (fuel - 1) as nat);
    }
}

/// Where the payload and the utility script are regular files, the installer
/// can be run, and the utility script lies neither at nor below the module
/// directory and is no directory when the installer is done, an installation
/// succeeds within seventeen requests and leaves exactly this behind: the stale
/// module directory cleared and the helper in place before the installer ran,
/// whatever the installer then did, the utility script with its own bytes
/// again, no payload, and a fresh empty marker. The installer's exit code is on
/// record and has no bearing on the result.
pub proof fn install_goes_through(
    cfg: ConfigView,
    installer_script: Seq<u8>,
    util_script: Seq<u8>,
    payload: Seq<u8>,
    secure_dir: Seq<u8>,
    w: World,
    fuel: nat,
)
    requires
        ready(w.tree, payload, util_at(secure_dir)),
        w.exit is Ok,
        !within(util_at(secure_dir), cfg.module_dir()),
        kind_at(
            (w.program)(
                staged(
                    InstallView::begin(cfg, installer_script, util_script, payload, secure_dir),
                    w.tree,
                ),
            ),
            util_at(secure_dir),
        ) != PathKind::Dir,
        fuel >= 17,
    ensures
        ({
            let job = InstallView::begin(cfg, installer_script, util_script, payload, secure_dir);
            let end = install_run(job, EventView::Start, w, fuel);
            &&& end.succeeded()
            &&& end.world == World { tree: installed(job, w.program, w.tree), ..w }
            &&& end.state.status == Some(w.exit->Ok_0)
        }),
{
    let job = InstallView::begin(cfg, installer_script, util_script, payload, secure_dir);
    scripts_apart(secure_dir);
    scripts_not_nested(secure_dir);
    on_course_to_the_end(job, w, job, EventView::Start, w, fuel);
}

/// Whether neither path is the other or lies below it.
pub open spec fn apart(a: Seq<u8>, b: Seq<u8>) -> bool {
    !within(a, b) && !within(b, a)
}

/// Whether the five places of an installation lie apart from one another.
pub open spec fn places_apart(s: InstallView) -> bool {
    &&& apart(s.module_dir, s.installer)
    &&& apart(s.module_dir, s.util)
    &&& apart(s.module_dir, s.payload)
    &&& apart(s.module_dir, s.sentinel)
    &&& apart(s.installer, s.util)
    &&& apart(s.installer, s.payload)
    &&& apart(s.installer, s.sentinel)
    &&& apart(s.util, s.payload)
    &&& apart(s.util, s.sentinel)
    &&& apart(s.payload, s.sentinel)
}

/// An installer that keeps to the module directory: it changes nothing
/// outside it, leaves it a directory if it leaves anything below it, and what
/// it leaves there does not depend on what stands at or below the marker.
pub open spec fn keeps_to_module(
    program: spec_fn(Tree) -> Tree,
    module_dir: Seq<u8>,
    sentinel: Seq<u8>,
) -> bool {
    &&& forall|t: Tree| #[trigger] agree_outside(program(t), t, module_dir)
    &&& forall|t: Tree| #[trigger] tidy_at(program(t), module_dir)
    &&& forall|t: Tree, u: Tree| #[trigger]
        agree_outside(t, u, sentinel) ==> agree_within(program(t), program(u), module_dir)
}

/// The tree that an installation left, with the payload put back as it was in
/// `t`.
pub open spec fn refreshed(s: InstallView, program: spec_fn(Tree) -> Tree, t: Tree) -> Tree {
    installed(s, program, t).insert(s.payload, t[s.payload])
}

/// An installer that behaves alike on a first installation from `t` and on a
/// second one with the payload put back: both times it changes nothing outside
/// the module directory, and both times it leaves the same at and below it; and
/// it leaves the module directory a directory if it leaves anything below it.
pub open spec fn alike_on_both_runs(
    s: InstallView,
    program: spec_fn(Tree) -> Tree,
    t: Tree,
) -> bool {
    let first = staged(s, t);
    let second = staged(s, refreshed(s, program, t));
    &&& agree_outside(program(first), first, s.module_dir)
    &&& agree_outside(program(second), second, s.module_dir)
    &&& tidy_at(program(first), s.module_dir)
    &&& agree_within(program(second), program(first), s.module_dir)
}

/// What follows for any one path from five places lying apart: it lies at or
/// below one of them at most.
proof fn one_place_at_most(s: InstallView, q: Seq<u8>)
    requires
        places_apart(s),
    ensures
        !(within(q, s.module_dir) && within(q, s.installer)),
        !(within(q, s.module_dir) && within(q, s.payload)),
        !(within(q, s.module_dir) && within(q, s.sentinel)),
        !(within(q, s.installer) && within(q, s.payload)),
        !(within(q, s.installer) && within(q, s.sentinel)),
        !(within(q, s.payload) && within(q, s.sentinel)),
{
    if within(q, s.module_dir) {
        if within(q, s.installer) {
            roots_of_one_path_nest(q, s.module_dir, s.installer);
        }
        if within(q, s.payload) {
            roots_of_one_path_nest(q, s.module_dir, s.payload);
        }
        if within(q, s.sentinel) {
            roots_of_one_path_nest(q, s.module_dir, s.sentinel);
        }
    }
    if within(q, s.installer) && within(q, s.payload) {
        roots_of_one_path_nest(q, s.installer, s.payload);
    }
    if within(q, s.installer) && within(q, s.sentinel) {
        roots_of_one_path_nest(q, s.installer, s.sentinel);
    }
    if within(q, s.payload) && within(q, s.sentinel) {
        roots_of_one_path_nest(q, s.payload, s.sentinel);
    }
}

/// The tree that an installation leaves is a fixed point: put the payload back,
/// install again, and the same tree comes out.
proof fn afresh(s: InstallView, program: spec_fn(Tree) -> Tree, t0: Tree)
    requires
        ready(t0, s.payload, s.util),
        places_apart(s),
        tidy_at(t0, s.module_dir),
        alike_on_both_runs(s, program, t0),
    ensures
        ({
            let once = installed(s, program, t0);
            let again = refreshed(s, program, t0);
            &&& ready(again, s.payload, s.util)
            &&& kind_at(program(staged(s, t0)), s.util) != PathKind::Dir
            &&& kind_at(program(staged(s, again)), s.util) != PathKind::Dir
            &&& installed(s, program, again) == once
        }),
{
    let once = installed(s, program, t0);
    let t1 = refreshed(s, program, t0);
    let st0 = staged(s, t0);
    let st1 = staged(s, t1);
    let left0 = program(st0);
    let left1 = program(st1);
    assert(same_at(left0, st0, s.util));
    assert(same_at(left0, st0, s.payload));
    assert(same_at(left0, st0, s.sentinel));
    assert(same_at(left0, st0, s.installer));
    assert(ready(t1, s.payload, s.util));
    assert(same_at(left1, st1, s.util));
    assert(same_at(left1, st1, s.payload));
    assert(same_at(left1, st1, s.sentinel));
    assert(same_at(left1, st1, s.installer));
    let twice = installed(s, program, t1);
    assert forall|q: Seq<u8>|
        #![trigger twice.contains_key(q)]
        #![trigger once.contains_key(q)]
        same_at(twice, once, q) by {
        assert(within(q, s.module_dir) ==> same_at(left1, left0, q));
        assert(same_at(left0, st0, q) || within(q, s.module_dir));
        assert(same_at(left1, st1, q) || within(q, s.module_dir));
        one_place_at_most(s, q);
    }
    assert(twice =~= once);
}

/// Installing again with a fresh payload ends where the first installation
/// ended. Where the five places lie apart, the module directory is a directory
/// if anything lies below it, and the installer behaves alike on both runs, an
/// installation goes through; and once the payload is put back as it was, a
/// second installation goes through too and leaves the very same tree: the
/// module directory as the installer fills it, the marker fresh, the payload
/// used up both times.
pub proof fn install_afresh_ends_the_same(
    cfg: ConfigView,
    installer_script: Seq<u8>,
    util_script: Seq<u8>,
    payload: Seq<u8>,
    secure_dir: Seq<u8>,
    w: World,
    fuel: nat,
)
    requires
        ready(w.tree, payload, util_at(secure_dir)),
        w.exit is Ok,
        places_apart(InstallView::begin(cfg, installer_script, util_script, payload, secure_dir)),
        tidy_at(w.tree, cfg.module_dir()),
        alike_on_both_runs(
            InstallView::begin(cfg, installer_script, util_script, payload, secure_dir),
            w.program,
            w.tree,
        ),
        fuel >= 17,
    ensures
        ({
            let job = InstallView::begin(cfg, installer_script, util_script, payload, secure_dir);
            let once = install_run(job, EventView::Start, w, fuel);
            let again = World {
                tree: once.world.tree.insert(payload, w.tree[payload]),
                ..once.world
            };
            let twice = install_run(job, EventView::Start, again, fuel);
            &&& once.succeeded()
            &&& twice.succeeded()
            &&& twice.world == once.world
        }),
{
    let job = InstallView::begin(cfg, installer_script, util_script, payload, secure_dir);
    afresh(job, w.program, w.tree);
    install_goes_through(cfg, installer_script, util_script, payload, secure_dir, w, fuel);
    let once = install_run(job, EventView::Start, w, fuel);
    let again = World { tree: once.world.tree.insert(payload, w.tree[payload]), ..once.world };
    install_goes_through(cfg, installer_script, util_script, payload, secure_dir, again, fuel);
}

/// An installer that keeps to the module directory behaves alike on both
/// runs, whatever the tree: one that changes nothing outside the module
/// directory, leaves it a directory if it leaves anything below it, and fills
/// it without regard to what stands at or below the marker.
pub proof fn keeping_to_module_is_alike(s: InstallView, program: spec_fn(Tree) -> Tree, t0: Tree)
    requires
        ready(t0, s.payload, s.util),
        places_apart(s),
        tidy_at(t0, s.module_dir),
        keeps_to_module(program, s.module_dir, s.sentinel),
    ensures
        alike_on_both_runs(s, program, t0),
{
    let st0 = staged(s, t0);
    let st1 = staged(s, refreshed(s, program, t0));
    let left0 = program(st0);
    assert(agree_outside(left0, st0, s.module_dir));
    assert(agree_outside(program(st1), st1, s.module_dir));
    assert(tidy_at(left0, s.module_dir));
    assert(same_at(left0, st0, s.util));
    assert(same_at(left0, st0, s.payload));
    assert(same_at(left0, st0, s.sentinel));
    assert(same_at(left0, st0, s.installer));
    assert forall|q: Seq<u8>| !within(q, s.sentinel) implies same_at(st1, st0, q) by {
        assert(same_at(left0, st0, q) || within(q, s.module_dir));
        one_place_at_most(s, q);
    }
    assert(agree_outside(st1, st0, s.sentinel));
    assert(agree_within(program(st1), left0, s.module_dir));
}

/// An installation replaces the module directory; it does not add to it.
/// Where the installation goes through, the module directory is a directory if
/// anything lies below it, and neither script lies in it, the installer finds
/// nothing at the module directory or below it when it starts. A stale path
/// there that the installer does not make anew is absent in the end, unless it
/// is the marker path itself.
pub proof fn install_replaces_module(
    cfg: ConfigView,
    installer_script: Seq<u8>,
    util_script: Seq<u8>,
    payload: Seq<u8>,
    secure_dir: Seq<u8>,
    w: World,
    fuel: nat,
    stale: Seq<u8>,
)
    requires
        ready(w.tree, payload, util_at(secure_dir)),
        w.exit is Ok,
        !within(util_at(secure_dir), cfg.module_dir()),
        !within(installer_at(secure_dir), cfg.module_dir()),
        tidy_at(w.tree, cfg.module_dir()),
        kind_at(
            (w.program)(
                staged(
                    InstallView::begin(cfg, installer_script, util_script, payload, secure_dir),
                    w.tree,
                ),
            ),
            util_at(secure_dir),
        ) != PathKind::Dir,
        fuel >= 17,
        within(stale, cfg.module_dir()),
    ensures
        ({
            let job = InstallView::begin(cfg, installer_script, util_script, payload, secure_dir);
            let found = staged(job, w.tree);
            let end = install_run(job, EventView::Start, w, fuel);
            &&& end.succeeded()
            &&& !found.contains_key(stale)
            &&& !(w.program)(found).contains_key(stale) && stale != cfg.sentinel
                ==> !end.world.tree.contains_key(stale)
        }),
{
    install_goes_through(cfg, installer_script, util_script, payload, secure_dir, w, fuel);
}

} // verus!
