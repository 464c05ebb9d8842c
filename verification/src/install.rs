//! Installing the module through the installer helper.
//!
//! The installation goes ahead only where the payload and the shared utility
//! script are both regular files; otherwise it ends at once, successfully and
//! with nothing touched. It then clears a stale module directory, makes sure the
//! installer helper is in place, swaps the utility script for a stand-in, runs
//! the installer, puts the utility script back, removes the spent payload and
//! leaves a fresh, empty marker. A request that fails ends the installation
//! with that failure; what the installer itself exits with is recorded and
//! otherwise ignored.
//!
//! Once the stand-in is in place, no way out leaves it there: where the
//! installer cannot be started at all, the utility script is written back
//! first, and the installation ends with the installer's failure when that
//! write is answered.

use crate::config::{
    installer_at, installer_path, util_at, util_path, Assets, Config, ConfigView,
};
use crate::model::{run, Outcome, World};
use crate::path::{ascii, text};
use crate::presence::{remove_check, removal};
use crate::proto::{
    ask_read, ask_stat, ask_write, out_of_turn, read_of, rows, stat_of, write_of, Action,
    ActionView, Event, EventView, FsOp, FsOpView, IoError, PathKind, EPROTO,
};
use vstd::prelude::*;

verus! {

/// The permission bits of the installer helper: read, write and execute for its
/// owner, read and execute for everyone else.
pub const INSTALLER_MODE: u32 = 0o755;

/// Where an installation stands: the request whose answer it waits for.
#[derive(Clone, Copy, PartialEq, Eq, Debug, Structural)]
pub enum InstallPhase {
    /// Nothing was asked yet.
    Start,
    /// Asked what is at the payload path.
    ProbePayload,
    /// Asked what is at the utility script's path.
    ProbeUtil,
    /// Asked what is at the module directory.
    ProbeModule,
    /// Asked to clear the stale module directory.
    ClearModule,
    /// Asked what is at the installer helper's path.
    ProbeInstaller,
    /// Asked to clear what stands in the installer helper's place.
    ClearInstaller,
    /// Asked to write the installer helper.
    WriteInstaller,
    /// Asked to make the installer helper executable.
    ChmodInstaller,
    /// Asked for the utility script's contents.
    ReadUtil,
    /// Asked to write the stand-in over the utility script.
    PatchUtil,
    /// Asked to run the installer.
    RunInstaller,
    /// Asked to write the utility script's own contents back.
    RestoreUtil,
    /// Asked to write the utility script's own contents back after the
    /// installer could not be started; the failure is kept to end with.
    RevertUtil(IoError),
    /// Asked what is at the payload path, now that it is spent.
    ProbeSpent,
    /// Asked to remove the spent payload.
    ClearSpent,
    /// Asked what is at the marker path.
    ProbeSentinel,
    /// Asked to clear the old marker.
    ClearSentinel,
    /// Asked to create the fresh marker.
    MarkInstalled,
    /// Over.
    Done,
}

/// An installation under way.
#[derive(Debug)]
pub struct Install {
    /// The request whose answer is awaited.
    pub phase: InstallPhase,
    /// The path of the module's archive.
    pub payload: Vec<u8>,
    /// The directory of the installed module.
    pub module_dir: Vec<u8>,
    /// The path of the installer helper.
    pub installer: Vec<u8>,
    /// The path of the shared utility script.
    pub util: Vec<u8>,
    /// The path of the marker file.
    pub sentinel: Vec<u8>,
    /// What is written where the installer helper is missing.
    pub installer_script: Vec<u8>,
    /// What stands in for the utility script while the installer runs.
    pub util_script: Vec<u8>,
    /// The utility script's own contents, once they were read.
    pub saved: Vec<u8>,
    /// How the installer ended, once it ran: its exit code, if it had one.
    pub status: Option<Option<i32>>,
}

/// The model of an [`Install`].
pub struct InstallView {
    pub phase: InstallPhase,
    pub payload: Seq<u8>,
    pub module_dir: Seq<u8>,
    pub installer: Seq<u8>,
    pub util: Seq<u8>,
    pub sentinel: Seq<u8>,
    pub installer_script: Seq<u8>,
    pub util_script: Seq<u8>,
    pub saved: Seq<u8>,
    pub status: Option<Option<i32>>,
}

impl View for Install {
    type V = InstallView;

    open spec fn view(&self) -> InstallView {
        InstallView {
            phase: self.phase,
            payload: self.payload@,
            module_dir: self.module_dir@,
            installer: self.installer@,
            util: self.util@,
            sentinel: self.sentinel@,
            installer_script: self.installer_script@,
            util_script: self.util_script@,
            saved: self.saved@,
            status: self.status,
        }
    }
}

/// The command that runs the installer: the shell, on the helper script, with a
/// null sink for the argument it does not use, the flag that switches
/// interaction off, and the payload.
pub open spec fn installer_command(installer: Seq<u8>, payload: Seq<u8>) -> ActionView {
    ActionView::Spawn {
        program: text("sh"@),
        args: seq![installer, text("/dev/null"@), text("1"@), payload],
    }
}

impl InstallView {
    /// A new installation of the archive at `payload`, with the scripts below
    /// `secure_dir`.
    pub open spec fn begin(
        cfg: ConfigView,
        installer_script: Seq<u8>,
        util_script: Seq<u8>,
        payload: Seq<u8>,
        secure_dir: Seq<u8>,
    ) -> InstallView {
        InstallView {
            phase: InstallPhase::Start,
            payload,
            module_dir: cfg.module_dir(),
            installer: installer_at(secure_dir),
            util: util_at(secure_dir),
            sentinel: cfg.sentinel,
            installer_script,
            util_script,
            saved: Seq::empty(),
            status: None,
        }
    }

    /// The same installation in another phase.
    pub open spec fn at(self, phase: InstallPhase) -> InstallView {
        InstallView { phase, ..self }
    }

    /// The installation ends with `result`.
    pub open spec fn end(self, result: Result<(), IoError>) -> (InstallView, ActionView) {
        (self.at(InstallPhase::Done), ActionView::Finish(result))
    }

    /// The installation ends because it was told something it did not ask for.
    pub open spec fn derail(self) -> (InstallView, ActionView) {
        (self.at(InstallPhase::Done), out_of_turn())
    }

    /// After a request that yields no value: on success the installation moves
    /// to `phase` and asks `action`; a failure ends it.
    pub open spec fn then_ask(self, event: EventView, phase: InstallPhase, action: ActionView) -> (
        InstallView,
        ActionView,
    ) {
        match event {
            EventView::Done(Ok(())) => (self.at(phase), action),
            EventView::Done(Err(e)) => self.end(Err(e)),
            _ => self.derail(),
        }
    }

    /// After a probe: the installation clears what was found and moves to
    /// `clearing`, or finds nothing, moves to `phase` and asks `action`.
    pub open spec fn clear_then_ask(
        self,
        path: Seq<u8>,
        kind: PathKind,
        clearing: InstallPhase,
        phase: InstallPhase,
        action: ActionView,
    ) -> (InstallView, ActionView) {
        match removal(path, kind) {
            Some(op) => (self.at(clearing), ActionView::Fs(op)),
            None => (self.at(phase), action),
        }
    }

    /// The request that writes the installer helper.
    pub open spec fn write_installer(self) -> ActionView {
        write_of(self.installer, self.installer_script)
    }

    /// The request that creates the empty marker.
    pub open spec fn write_marker(self) -> ActionView {
        write_of(self.sentinel, Seq::empty())
    }
}

/// One move of an installation: the state it is in next and the request it
/// makes, given the state it was in and the answer to its last request.
pub open spec fn install_next(s: InstallView, e: EventView) -> (InstallView, ActionView) {
    match s.phase {
        InstallPhase::Start => match e {
            EventView::Start => (s.at(InstallPhase::ProbePayload), stat_of(s.payload)),
            _ => s.derail(),
        },
        InstallPhase::ProbePayload => match e {
            EventView::Kind(PathKind::File) => (s.at(InstallPhase::ProbeUtil), stat_of(s.util)),
            EventView::Kind(_) => s.end(Ok(())),
            _ => s.derail(),
        },
        InstallPhase::ProbeUtil => match e {
            EventView::Kind(PathKind::File) => (
                s.at(InstallPhase::ProbeModule),
                stat_of(s.module_dir),
            ),
            EventView::Kind(_) => s.end(Ok(())),
            _ => s.derail(),
        },
        InstallPhase::ProbeModule => match e {
            EventView::Kind(k) => s.clear_then_ask(
                s.module_dir,
                k,
                InstallPhase::ClearModule,
                InstallPhase::ProbeInstaller,
                stat_of(s.installer),
            ),
            _ => s.derail(),
        },
        InstallPhase::ClearModule => s.then_ask(
            e,
            InstallPhase::ProbeInstaller,
            stat_of(s.installer),
        ),
        InstallPhase::ProbeInstaller => match e {
            EventView::Kind(PathKind::File) => (s.at(InstallPhase::ReadUtil), read_of(s.util)),
            EventView::Kind(k) => s.clear_then_ask(
                s.installer,
                k,
                InstallPhase::ClearInstaller,
                InstallPhase::WriteInstaller,
                s.write_installer(),
            ),
            _ => s.derail(),
        },
        InstallPhase::ClearInstaller => s.then_ask(
            e,
            InstallPhase::WriteInstaller,
            s.write_installer(),
        ),
        InstallPhase::WriteInstaller => s.then_ask(
            e,
            InstallPhase::ChmodInstaller,
            ActionView::Fs(FsOpView::SetMode { path: s.installer, mode: INSTALLER_MODE }),
        ),
        InstallPhase::ChmodInstaller => s.then_ask(e, InstallPhase::ReadUtil, read_of(s.util)),
        InstallPhase::ReadUtil => match e {
            EventView::Data(Ok(data)) => (
                InstallView { saved: data, ..s }.at(InstallPhase::PatchUtil),
                write_of(s.util, s.util_script),
            ),
            EventView::Data(Err(err)) => s.end(Err(err)),
            _ => s.derail(),
        },
        InstallPhase::PatchUtil => s.then_ask(
            e,
            InstallPhase::RunInstaller,
            installer_command(s.installer, s.payload),
        ),
        InstallPhase::RunInstaller => match e {
            EventView::Exited(Ok(code)) => (
                InstallView { status: Some(code), ..s }.at(InstallPhase::RestoreUtil),
                write_of(s.util, s.saved),
            ),
            EventView::Exited(Err(err)) => (
                s.at(InstallPhase::RevertUtil(err)),
                write_of(s.util, s.saved),
            ),
            _ => s.derail(),
        },
        InstallPhase::RestoreUtil => s.then_ask(e, InstallPhase::ProbeSpent, stat_of(s.payload)),
        InstallPhase::RevertUtil(failure) => match e {
            EventView::Done(_) => s.end(Err(failure)),
            _ => s.derail(),
        },
        InstallPhase::ProbeSpent => match e {
            EventView::Kind(k) => s.clear_then_ask(
                s.payload,
                k,
                InstallPhase::ClearSpent,
                InstallPhase::ProbeSentinel,
                stat_of(s.sentinel),
            ),
            _ => s.derail(),
        },
        InstallPhase::ClearSpent => s.then_ask(e, InstallPhase::ProbeSentinel, stat_of(s.sentinel)),
        InstallPhase::ProbeSentinel => match e {
            EventView::Kind(k) => s.clear_then_ask(
                s.sentinel,
                k,
                InstallPhase::ClearSentinel,
                InstallPhase::MarkInstalled,
                s.write_marker(),
            ),
            _ => s.derail(),
        },
        InstallPhase::ClearSentinel => s.then_ask(e, InstallPhase::MarkInstalled, s.write_marker()),
        InstallPhase::MarkInstalled => match e {
            EventView::Done(result) => s.end(result),
            _ => s.derail(),
        },
        InstallPhase::Done => s.derail(),
    }
}

/// An installation driven against the model world: it is told `e`, each of
/// its requests is answered by the world, until it finishes or `fuel` requests
/// were answered.
pub open spec fn install_run(s: InstallView, e: EventView, w: World, fuel: nat) -> Outcome<
    InstallView,
> {
    run(|s1: InstallView, e1: EventView| install_next(s1, e1), s, e, w, fuel)
}

/// Builds the command that runs the installer.
fn command(installer: &Vec<u8>, payload: &Vec<u8>) -> (action: Action)
    ensures
        action@ == installer_command(installer@, payload@),
{
    proof {
        reveal_strlit("sh");
        reveal_strlit("/dev/null");
        reveal_strlit("1");
    }
    let mut args: Vec<Vec<u8>> = Vec::new();
    args.push(installer.clone());
    args.push(ascii("/dev/null"));
    args.push(ascii("1"));
    args.push(payload.clone());
    let action = Action::Spawn { program: ascii("sh"), args };
    assert(rows(args@) =~= seq![installer@, text("/dev/null"@), text("1"@), payload@]);
    action
}

impl Install {
    /// A new installation of the archive at `rezygisk_path`, with the scripts
    /// below `secure_dir`. Nothing is asked until it is told [`Event::Start`].
    pub fn new(
        cfg: &Config,
        assets: &Assets,
        rezygisk_path: &Vec<u8>,
        secure_dir: &Vec<u8>,
    ) -> (job: Install)
        ensures
            job@ == InstallView::begin(
                cfg@,
                assets.installer_script@,
                assets.util_script@,
                rezygisk_path@,
                secure_dir@,
            ),
    {
        Install {
            phase: InstallPhase::Start,
            payload: rezygisk_path.clone(),
            module_dir: cfg.module_dir(),
            installer: installer_path(secure_dir),
            util: util_path(secure_dir),
            sentinel: cfg.sentinel.clone(),
            installer_script: assets.installer_script.clone(),
            util_script: assets.util_script.clone(),
            saved: Vec::new(),
            status: None,
        }
    }

    /// Whether the installation is over.
    pub fn is_done(&self) -> (done: bool)
        ensures
            done == (self@.phase == InstallPhase::Done),
    {
        match self.phase {
            InstallPhase::Done => true,
            _ => false,
        }
    }

    fn end(&mut self, result: Result<(), IoError>) -> (action: Action)
        ensures
            (final(self)@, action@) == old(self)@.end(result),
    {
        self.phase = InstallPhase::Done;
        Action::Finish(result)
    }

    fn derail(&mut self) -> (action: Action)
        ensures
            (final(self)@, action@) == old(self)@.derail(),
    {
        self.phase = InstallPhase::Done;
        Action::Finish(Err(IoError { code: EPROTO }))
    }

    fn then_ask(&mut self, event: Event, phase: InstallPhase, action: Action) -> (next: Action)
        ensures
            (final(self)@, next@) == old(self)@.then_ask(event@, phase, action@),
    {
        match event {
            Event::Done(Ok(())) => {
                self.phase = phase;
                action
            },
            Event::Done(Err(e)) => self.end(Err(e)),
            _ => self.derail(),
        }
    }

    fn clear_then_ask(
        &mut self,
        path: &Vec<u8>,
        kind: PathKind,
        clearing: InstallPhase,
        phase: InstallPhase,
        action: Action,
    ) -> (next: Action)
        ensures
            (final(self)@, next@) == old(self)@.clear_then_ask(
                path@,
                kind,
                clearing,
                phase,
                action@,
            ),
    {
        match remove_check(path, kind) {
            Some(op) => {
                self.phase = clearing;
                Action::Fs(op)
            },
            None => {
                self.phase = phase;
                action
            },
        }
    }
}

/// Moves an installation on by one step: `event` answers the request it made
/// last, and the result is the request it makes next.
///
/// A new installation is told [`Event::Start`]. The caller carries each request
/// out and hands its outcome back, until the request is [`Action::Finish`],
/// which carries the result of the whole installation. An answer that does not
/// fit the last request ends the installation with [`EPROTO`].
pub fn install_rezygisk(job: &mut Install, event: Event) -> (action: Action)
    ensures
        (final(job)@, action@) == install_next(old(job)@, event@),
{
    match job.phase {
        InstallPhase::Start => match event {
            Event::Start => {
                job.phase = InstallPhase::ProbePayload;
                ask_stat(&job.payload)
            },
            _ => job.derail(),
        },
        InstallPhase::ProbePayload => match event {
            Event::Kind(PathKind::File) => {
                job.phase = InstallPhase::ProbeUtil;
                ask_stat(&job.util)
            },
            Event::Kind(_) => job.end(Ok(())),
            _ => job.derail(),
        },
        InstallPhase::ProbeUtil => match event {
            Event::Kind(PathKind::File) => {
                job.phase = InstallPhase::ProbeModule;
                ask_stat(&job.module_dir)
            },
            Event::Kind(_) => job.end(Ok(())),
            _ => job.derail(),
        },
        InstallPhase::ProbeModule => match event {
            Event::Kind(k) => {
                let path = job.module_dir.clone();
                let ask = ask_stat(&job.installer);
                job.clear_then_ask(
                    &path,
                    k,
                    InstallPhase::ClearModule,
                    InstallPhase::ProbeInstaller,
                    ask,
                )
            },
            _ => job.derail(),
        },
        InstallPhase::ClearModule => {
            let ask = ask_stat(&job.installer);
            job.then_ask(event, InstallPhase::ProbeInstaller, ask)
        },
        InstallPhase::ProbeInstaller => match event {
            Event::Kind(PathKind::File) => {
                job.phase = InstallPhase::ReadUtil;
                ask_read(&job.util)
            },
            Event::Kind(k) => {
                let path = job.installer.clone();
                let ask = ask_write(&job.installer, &job.installer_script);
                job.clear_then_ask(
                    &path,
                    k,
                    InstallPhase::ClearInstaller,
                    InstallPhase::WriteInstaller,
                    ask,
                )
            },
            _ => job.derail(),
        },
        InstallPhase::ClearInstaller => {
            let ask = ask_write(&job.installer, &job.installer_script);
            job.then_ask(event, InstallPhase::WriteInstaller, ask)
        },
        InstallPhase::WriteInstaller => {
            let ask = Action::Fs(
                FsOp::SetMode { path: job.installer.clone(), mode: INSTALLER_MODE },
            );
            job.then_ask(event, InstallPhase::ChmodInstaller, ask)
        },
        InstallPhase::ChmodInstaller => {
            let ask = ask_read(&job.util);
            job.then_ask(event, InstallPhase::ReadUtil, ask)
        },
        InstallPhase::ReadUtil => match event {
            Event::Data(Ok(data)) => {
                job.saved = data;
                job.phase = InstallPhase::PatchUtil;
                ask_write(&job.util, &job.util_script)
            },
            Event::Data(Err(err)) => job.end(Err(err)),
            _ => job.derail(),
        },
        InstallPhase::PatchUtil => {
            let ask = command(&job.installer, &job.payload);
            job.then_ask(event, InstallPhase::RunInstaller, ask)
        },
        InstallPhase::RunInstaller => match event {
            Event::Exited(Ok(code)) => {
                job.status = Some(code);
                job.phase = InstallPhase::RestoreUtil;
                ask_write(&job.util, &job.saved)
            },
            Event::Exited(Err(err)) => {
                job.phase = InstallPhase::RevertUtil(err);
                ask_write(&job.util, &job.saved)
            },
            _ => job.derail(),
        },
        InstallPhase::RevertUtil(failure) => match event {
            Event::Done(_) => job.end(Err(failure)),
            _ => job.derail(),
        },
        InstallPhase::RestoreUtil => {
            let ask = ask_stat(&job.payload);
            job.then_ask(event, InstallPhase::ProbeSpent, ask)
        },
        InstallPhase::ProbeSpent => match event {
            Event::Kind(k) => {
                let path = job.payload.clone();
                let ask = ask_stat(&job.sentinel);
                job.clear_then_ask(
                    &path,
                    k,
                    InstallPhase::ClearSpent,
                    InstallPhase::ProbeSentinel,
                    ask,
                )
            },
            _ => job.derail(),
        },
        InstallPhase::ClearSpent => {
            let ask = ask_stat(&job.sentinel);
            job.then_ask(event, InstallPhase::ProbeSentinel, ask)
        },
        InstallPhase::ProbeSentinel => match event {
            Event::Kind(k) => {
                let path = job.sentinel.clone();
                let ask = ask_write(&job.sentinel, &Vec::new());
                job.clear_then_ask(
                    &path,
                    k,
                    InstallPhase::ClearSentinel,
                    InstallPhase::MarkInstalled,
                    ask,
                )
            },
            _ => job.derail(),
        },
        InstallPhase::ClearSentinel => {
            let ask = ask_write(&job.sentinel, &Vec::new());
            job.then_ask(event, InstallPhase::MarkInstalled, ask)
        },
        InstallPhase::MarkInstalled => match event {
            Event::Done(result) => job.end(result),
            _ => job.derail(),
        },
        InstallPhase::Done => job.derail(),
    }
}

} // verus!
