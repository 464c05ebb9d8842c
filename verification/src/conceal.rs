//! Concealing the installed module.
//!
//! The concealment first waits until some running process carries the
//! configured tag in its command line, looking once a second for as long as it
//! takes. It then detaches the module's property file, if there is one, trying
//! again every tenth of a second while that fails and giving up, without
//! failing, once twenty seconds' worth of attempts are spent. Whether or not the
//! detaching worked, it removes the module directory; the marker is never
//! touched.
//!
//! Nothing bounds the wait for the process. A caller that wants to give up
//! stops driving the concealment: until the process has shown, nothing was
//! asked but looks at the process table and naps.

use crate::config::{Config, ConfigView};
use crate::model::{run, Outcome, World};
use crate::path::{any_contains, find_in_any};
use crate::presence::{remove_check, removal};
use crate::proto::{
    ask_stat, out_of_turn, stat_of, Action, ActionView, Event, EventView, IoError, PathKind,
    EPROTO,
};
use vstd::prelude::*;

verus! {

/// Milliseconds between two looks at the running processes.
pub const POLL_MS: u32 = 1000;

/// Milliseconds between two attempts to detach the mount.
pub const RETRY_MS: u32 = 100;

/// Milliseconds' worth of attempts after which detaching is given up.
pub const UNMOUNT_CEILING_MS: u32 = 20000;

/// Where a concealment stands: the request whose answer it waits for.
#[derive(Clone, Copy, PartialEq, Eq, Debug, Structural)]
pub enum HidePhase {
    /// Nothing was asked yet.
    Start,
    /// Asked for the command lines of the running processes.
    Scanning,
    /// Asked to wait before the next look at the processes.
    Napping,
    /// Asked what is at the module's property file.
    ProbeProp,
    /// Asked to detach the property file.
    Unmounting,
    /// Asked to wait before the next attempt to detach.
    Backoff,
    /// Asked what is at the module directory.
    ProbeModule,
    /// Asked to remove the module directory.
    Clearing,
    /// Over.
    Done,
}

/// A concealment under way.
#[derive(Debug)]
pub struct Hide {
    /// The request whose answer is awaited.
    pub phase: HidePhase,
    /// The directory of the installed module.
    pub module_dir: Vec<u8>,
    /// The module's property file, which doubles as its mount point.
    pub module_prop: Vec<u8>,
    /// The text looked for in the command lines.
    pub marker: Vec<u8>,
    /// Milliseconds charged so far to failed attempts to detach.
    pub spent: u32,
}

/// The model of a [`Hide`].
pub struct HideView {
    pub phase: HidePhase,
    pub module_dir: Seq<u8>,
    pub module_prop: Seq<u8>,
    pub marker: Seq<u8>,
    pub spent: u32,
}

impl View for Hide {
    type V = HideView;

    open spec fn view(&self) -> HideView {
        HideView {
            phase: self.phase,
            module_dir: self.module_dir@,
            module_prop: self.module_prop@,
            marker: self.marker@,
            spent: self.spent,
        }
    }
}

impl HideView {
    /// A new concealment.
    pub open spec fn begin(cfg: ConfigView) -> HideView {
        HideView {
            phase: HidePhase::Start,
            module_dir: cfg.module_dir(),
            module_prop: cfg.module_prop(),
            marker: cfg.marker,
            spent: 0,
        }
    }

    /// The same concealment in another phase.
    pub open spec fn at(self, phase: HidePhase) -> HideView {
        HideView { phase, ..self }
    }

    /// The concealment ends with `result`.
    pub open spec fn end(self, result: Result<(), IoError>) -> (HideView, ActionView) {
        (self.at(HidePhase::Done), ActionView::Finish(result))
    }

    /// The concealment ends because it was told something it did not ask for.
    pub open spec fn derail(self) -> (HideView, ActionView) {
        (self.at(HidePhase::Done), out_of_turn())
    }

    /// The concealment turns to the module directory.
    pub open spec fn sweep(self) -> (HideView, ActionView) {
        (self.at(HidePhase::ProbeModule), stat_of(self.module_dir))
    }

    /// The concealment tries to detach the property file.
    pub open spec fn detach(self) -> (HideView, ActionView) {
        (self.at(HidePhase::Unmounting), ActionView::Unmount { path: self.module_prop })
    }

    /// Whether one more failed attempt uses the allowance up.
    pub open spec fn last_attempt(self) -> bool {
        self.spent + RETRY_MS >= UNMOUNT_CEILING_MS
    }

    /// After a failed attempt to detach: the attempt is charged, and the
    /// concealment waits for the next one, or gives up and turns to the module
    /// directory where the allowance is used up.
    pub open spec fn retry(self) -> (HideView, ActionView) {
        if self.last_attempt() {
            self.sweep()
        } else {
            (
                HideView { spent: (self.spent + RETRY_MS) as u32, ..self }.at(HidePhase::Backoff),
                ActionView::Sleep { millis: RETRY_MS },
            )
        }
    }
}

/// One move of a concealment: the state it is in next and the request it makes,
/// given the state it was in and the answer to its last request.
pub open spec fn hide_next(s: HideView, e: EventView) -> (HideView, ActionView) {
    match s.phase {
        HidePhase::Start => match e {
            EventView::Start => (s.at(HidePhase::Scanning), ActionView::ListProcesses),
            _ => s.derail(),
        },
        HidePhase::Scanning => match e {
            EventView::Processes(Ok(records)) => if any_contains(records, s.marker) {
                (s.at(HidePhase::ProbeProp), stat_of(s.module_prop))
            } else {
                (s.at(HidePhase::Napping), ActionView::Sleep { millis: POLL_MS })
            },
            EventView::Processes(Err(err)) => s.end(Err(err)),
            _ => s.derail(),
        },
        HidePhase::Napping => match e {
            EventView::Done(_) => (s.at(HidePhase::Scanning), ActionView::ListProcesses),
            _ => s.derail(),
        },
        HidePhase::ProbeProp => match e {
            EventView::Kind(PathKind::Absent) => s.sweep(),
            EventView::Kind(_) => s.detach(),
            _ => s.derail(),
        },
        HidePhase::Unmounting => match e {
            EventView::Done(Ok(())) => s.sweep(),
            EventView::Done(Err(_)) => s.retry(),
            _ => s.derail(),
        },
        HidePhase::Backoff => match e {
            EventView::Done(_) => s.detach(),
            _ => s.derail(),
        },
        HidePhase::ProbeModule => match e {
            EventView::Kind(k) => match removal(s.module_dir, k) {
                Some(op) => (s.at(HidePhase::Clearing), ActionView::Fs(op)),
                None => s.end(Ok(())),
            },
            _ => s.derail(),
        },
        HidePhase::Clearing => match e {
            EventView::Done(result) => s.end(result),
            _ => s.derail(),
        },
        HidePhase::Done => s.derail(),
    }
}

/// A concealment driven against the model world: it is told `e`, each of its
/// requests is answered by the world, until it finishes or `fuel` requests were
/// answered.
pub open spec fn hide_run(s: HideView, e: EventView, w: World, fuel: nat) -> Outcome<HideView> {
    run(|s1: HideView, e1: EventView| hide_next(s1, e1), s, e, w, fuel)
}

impl Hide {
    /// A new concealment. Nothing is asked until it is told [`Event::Start`].
    pub fn new(cfg: &Config) -> (job: Hide)
        ensures
            job@ == HideView::begin(cfg@),
    {
        Hide {
            phase: HidePhase::Start,
            module_dir: cfg.module_dir(),
            module_prop: cfg.module_prop(),
            marker: cfg.marker.clone(),
            spent: 0,
        }
    }

    /// Whether the concealment is over.
    pub fn is_done(&self) -> (done: bool)
        ensures
            done == (self@.phase == HidePhase::Done),
    {
        self.phase == HidePhase::Done
    }

    fn end(&mut self, result: Result<(), IoError>) -> (action: Action)
        ensures
            (final(self)@, action@) == old(self)@.end(result),
    {
        self.phase = HidePhase::Done;
        Action::Finish(result)
    }

    fn derail(&mut self) -> (action: Action)
        ensures
            (final(self)@, action@) == old(self)@.derail(),
    {
        self.phase = HidePhase::Done;
        Action::Finish(Err(IoError { code: EPROTO }))
    }

    fn sweep(&mut self) -> (action: Action)
        ensures
            (final(self)@, action@) == old(self)@.sweep(),
    {
        self.phase = HidePhase::ProbeModule;
        ask_stat(&self.module_dir)
    }

    fn detach(&mut self) -> (action: Action)
        ensures
            (final(self)@, action@) == old(self)@.detach(),
    {
        self.phase = HidePhase::Unmounting;
        Action::Unmount { path: self.module_prop.clone() }
    }

    fn retry(&mut self) -> (action: Action)
        ensures
            (final(self)@, action@) == old(self)@.retry(),
    {
        if self.spent >= UNMOUNT_CEILING_MS - RETRY_MS {
            self.sweep()
        } else {
            self.spent = self.spent + RETRY_MS;
            self.phase = HidePhase::Backoff;
            Action::Sleep { millis: RETRY_MS }
        }
    }
}

/// Moves a concealment on by one step: `event` answers the request it made
/// last, and the result is the request it makes next.
///
/// A new concealment is told [`Event::Start`]. The caller carries each request
/// out and hands its outcome back, until the request is [`Action::Finish`],
/// which carries the result of the whole concealment. An answer that does not
/// fit the last request ends the concealment with [`EPROTO`].
pub fn hide_rezygisk(job: &mut Hide, event: Event) -> (action: Action)
    ensures
        (final(job)@, action@) == hide_next(old(job)@, event@),
{
    match job.phase {
        HidePhase::Start => match event {
            Event::Start => {
                job.phase = HidePhase::Scanning;
                Action::ListProcesses
            },
            _ => job.derail(),
        },
        HidePhase::Scanning => match event {
            Event::Processes(Ok(records)) => {
                if find_in_any(&records, &job.marker) {
                    job.phase = HidePhase::ProbeProp;
                    ask_stat(&job.module_prop)
                } else {
                    job.phase = HidePhase::Napping;
                    Action::Sleep { millis: POLL_MS }
                }
            },
            Event::Processes(Err(err)) => job.end(Err(err)),
            _ => job.derail(),
        },
        HidePhase::Napping => match event {
            Event::Done(_) => {
                job.phase = HidePhase::Scanning;
                Action::ListProcesses
            },
            _ => job.derail(),
        },
        HidePhase::ProbeProp => match event {
            Event::Kind(PathKind::Absent) => job.sweep(),
            Event::Kind(_) => job.detach(),
            _ => job.derail(),
        },
        HidePhase::Unmounting => match event {
            Event::Done(Ok(())) => job.sweep(),
            Event::Done(Err(_)) => job.retry(),
            _ => job.derail(),
        },
        HidePhase::Backoff => match event {
            Event::Done(_) => job.detach(),
            _ => job.derail(),
        },
        HidePhase::ProbeModule => match event {
            Event::Kind(k) => match remove_check(&job.module_dir, k) {
                Some(op) => {
                    job.phase = HidePhase::Clearing;
                    Action::Fs(op)
                },
                None => job.end(Ok(())),
            },
            _ => job.derail(),
        },
        HidePhase::Clearing => match event {
            Event::Done(result) => job.end(result),
            _ => job.derail(),
        },
        HidePhase::Done => job.derail(),
    }
}

} // verus!
