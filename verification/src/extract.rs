//! Writing the module's archive out to a path.
//!
//! Whatever stands at the destination is removed first, as far as that goes: a
//! removal that fails is passed over. Then the archive is written, and how that
//! write went is the result.

use crate::config::Assets;
use crate::model::{run, Outcome, World};
use crate::presence::{remove_check, removal};
use crate::proto::{
    ask_stat, ask_write, out_of_turn, stat_of, write_of, Action, ActionView, Event, EventView,
    IoError, EPROTO,
};
use vstd::prelude::*;

verus! {

/// Where an extraction stands: the request whose answer it waits for.
#[derive(Clone, Copy, PartialEq, Eq, Debug, Structural)]
pub enum ExtractPhase {
    /// Nothing was asked yet.
    Start,
    /// Asked what is at the destination.
    Probing,
    /// Asked to clear the destination.
    Clearing,
    /// Asked to write the archive.
    Writing,
    /// Over.
    Done,
}

/// An extraction under way.
#[derive(Debug)]
pub struct Extract {
    /// The request whose answer is awaited.
    pub phase: ExtractPhase,
    /// Where the archive goes.
    pub dest: Vec<u8>,
    /// The archive.
    pub blob: Vec<u8>,
}

/// The model of an [`Extract`].
pub struct ExtractView {
    pub phase: ExtractPhase,
    pub dest: Seq<u8>,
    pub blob: Seq<u8>,
}

impl View for Extract {
    type V = ExtractView;

    open spec fn view(&self) -> ExtractView {
        ExtractView { phase: self.phase, dest: self.dest@, blob: self.blob@ }
    }
}

impl ExtractView {
    /// A new extraction of `blob` to `dest`.
    pub open spec fn begin(blob: Seq<u8>, dest: Seq<u8>) -> ExtractView {
        ExtractView { phase: ExtractPhase::Start, dest, blob }
    }

    /// The same extraction in another phase.
    pub open spec fn at(self, phase: ExtractPhase) -> ExtractView {
        ExtractView { phase, ..self }
    }

    /// The extraction moves on to writing the archive.
    pub open spec fn write_out(self) -> (ExtractView, ActionView) {
        (self.at(ExtractPhase::Writing), write_of(self.dest, self.blob))
    }
}

/// One move of an extraction: the state it is in next and the request it makes,
/// given the state it was in and the answer to its last request.
pub open spec fn extract_next(s: ExtractView, e: EventView) -> (ExtractView, ActionView) {
    match s.phase {
        ExtractPhase::Start => match e {
            EventView::Start => (s.at(ExtractPhase::Probing), stat_of(s.dest)),
            _ => (s.at(ExtractPhase::Done), out_of_turn()),
        },
        ExtractPhase::Probing => match e {
            EventView::Kind(k) => match removal(s.dest, k) {
                Some(op) => (s.at(ExtractPhase::Clearing), ActionView::Fs(op)),
                None => s.write_out(),
            },
            _ => (s.at(ExtractPhase::Done), out_of_turn()),
        },
        ExtractPhase::Clearing => match e {
            EventView::Done(_) => s.write_out(),
            _ => (s.at(ExtractPhase::Done), out_of_turn()),
        },
        ExtractPhase::Writing => match e {
            EventView::Done(result) => (s.at(ExtractPhase::Done), ActionView::Finish(result)),
            _ => (s.at(ExtractPhase::Done), out_of_turn()),
        },
        ExtractPhase::Done => (s.at(ExtractPhase::Done), out_of_turn()),
    }
}

/// An extraction driven against the model world: it is told `e`, each of its
/// requests is answered by the world, until it finishes or `fuel` requests were
/// answered.
pub open spec fn extract_run(s: ExtractView, e: EventView, w: World, fuel: nat) -> Outcome<
    ExtractView,
> {
    run(|s1: ExtractView, e1: EventView| extract_next(s1, e1), s, e, w, fuel)
}

impl Extract {
    /// A new extraction of the archive among `assets` to `path`. Nothing is
    /// asked until it is told [`Event::Start`].
    pub fn new(assets: &Assets, path: &Vec<u8>) -> (job: Extract)
        ensures
            job@ == ExtractView::begin(assets.payload@, path@),
    {
        Extract { phase: ExtractPhase::Start, dest: path.clone(), blob: assets.payload.clone() }
    }

    /// Whether the extraction is over.
    pub fn is_done(&self) -> (done: bool)
        ensures
            done == (self@.phase == ExtractPhase::Done),
    {
        self.phase == ExtractPhase::Done
    }

    fn derail(&mut self) -> (action: Action)
        ensures
            final(self)@ == old(self)@.at(ExtractPhase::Done),
            action@ == out_of_turn(),
    {
        self.phase = ExtractPhase::Done;
        Action::Finish(Err(IoError { code: EPROTO }))
    }

    fn write_out(&mut self) -> (action: Action)
        ensures
            (final(self)@, action@) == old(self)@.write_out(),
    {
        self.phase = ExtractPhase::Writing;
        ask_write(&self.dest, &self.blob)
    }
}

/// Moves an extraction on by one step: `event` answers the request it made
/// last, and the result is the request it makes next.
///
/// A new extraction is told [`Event::Start`]. The caller carries each request
/// out and hands its outcome back, until the request is [`Action::Finish`],
/// which carries the result of the whole extraction. An answer that does not
/// fit the last request ends the extraction with [`EPROTO`].
pub fn extract_rezygisk_to(job: &mut Extract, event: Event) -> (action: Action)
    ensures
        (final(job)@, action@) == extract_next(old(job)@, event@),
{
    match job.phase {
        ExtractPhase::Start => match event {
            Event::Start => {
                job.phase = ExtractPhase::Probing;
                ask_stat(&job.dest)
            },
            _ => job.derail(),
        },
        ExtractPhase::Probing => match event {
            Event::Kind(k) => match remove_check(&job.dest, k) {
                Some(op) => {
                    job.phase = ExtractPhase::Clearing;
                    Action::Fs(op)
                },
                None => job.write_out(),
            },
            _ => job.derail(),
        },
        ExtractPhase::Clearing => match event {
            Event::Done(_) => job.write_out(),
            _ => job.derail(),
        },
        ExtractPhase::Writing => match event {
            Event::Done(result) => {
                job.phase = ExtractPhase::Done;
                Action::Finish(result)
            },
            _ => job.derail(),
        },
        ExtractPhase::Done => job.derail(),
    }
}

} // verus!
