//! The course of one run, as a machine that is told what happened outside and
//! answers with what to print and what to do next.
//!
//! The caller owns the PDF engine and the file system. It performs the action
//! it is given, reports the outcome as an event, and repeats until the action
//! is to report or to abort. An event that does not answer the action asked
//! for changes nothing, and the same action is asked again.

use vstd::prelude::*;
use crate::config::Args;
use crate::error::ErrorKind;
use crate::memory::peak_after;
use crate::memory::physical_memory;
use crate::memory::record_sample;
use crate::pages::ascending;
use crate::pages::output_pages;
use crate::pages::page_sequence;
use crate::pages::MergedDocument;
use crate::pages::PageRef;

verus! {

/// Where a run stands.
#[derive(Clone, Copy, Debug, PartialEq, Eq, Structural)]
pub enum Stage {
    /// The engine is being set up.
    Starting,
    /// Memory is sampled once the engine is set up.
    SetupSample,
    /// The file of the current index is looked for.
    Probing,
    /// The file of the current index is being loaded.
    Loading,
    /// The pages of the loaded document, so many of them, are being labelled.
    Watermarking(u16),
    /// The pages of the loaded document, so many of them, are being appended.
    Appending(u16),
    /// Memory is sampled after an append.
    AppendSample,
    /// Memory is sampled before the output is written.
    FinalSample,
    /// The output is being written.
    Saving,
    /// Memory is sampled after the output was written.
    SavedSample,
    /// The size of the written file is being read.
    Measuring,
    /// The run is over; the written file has this many bytes.
    Done(u64),
    /// The run was given up at the step named.
    Failed(ErrorKind),
}

/// What happened outside, in answer to an action.
#[derive(Clone, Copy, Debug, PartialEq, Eq)]
pub enum Event {
    EngineStarted,
    EngineFailed,
    /// The file of the current index exists.
    Found,
    /// No file has the current index.
    Missing,
    /// The file was loaded and has this many pages.
    Loaded(u16),
    /// The file exists but could not be loaded.
    LoadFailed,
    Watermarked,
    WatermarkFailed,
    Appended,
    AppendFailed,
    /// Memory was sampled: the bytes in use, or nothing when that cannot be told.
    Sampled(Option<usize>),
    Saved,
    SaveFailed,
    /// The written file has this many bytes.
    Measured(u64),
    MeasureFailed,
}

/// What the caller is to do next.
#[derive(Clone, Copy, Debug, PartialEq, Eq, Structural)]
pub enum Action {
    /// Set up the engine and an empty output document.
    StartEngine,
    /// Sample the memory in use.
    SampleMemory,
    /// See whether the file with this index exists.
    Probe(u64),
    /// Load the file with this index.
    Load(u64),
    /// Label each page of the loaded document.
    Watermark,
    /// Append the pages of the loaded document to the output.
    Append,
    /// Write the output to the target path.
    Save,
    /// Read the size of the written file.
    Measure,
    /// Print the summary; the written file has this many bytes. The run is over.
    Report(u64),
    /// Give up with an error of this kind. The run is over.
    Abort(ErrorKind),
}

/// Something to tell the user, in the order it happened.
#[derive(Clone, Copy, Debug, PartialEq, Eq)]
pub enum Notice {
    /// The run starts, over so many indices.
    Merging(u32),
    /// The file with this index exists and will be loaded.
    Adding(u64),
    /// The file with this index was loaded.
    Imported(u64),
    /// The file with this index could not be loaded and is left out.
    ImportFailed(u64),
    /// No file has this index.
    Skipped(u64),
    /// So many pages were labelled.
    Watermarked(u16),
    /// So many bytes of memory are in use.
    MemoryUsage(usize),
    /// The memory in use cannot be told.
    MemoryUnavailable,
    /// The output is about to be written.
    Creating,
}

/// A run as a mathematical value.
pub struct RunState {
    pub start: u32,
    pub count: u32,
    pub watermark: bool,
    pub stage: Stage,
    /// How many indices of the range are dealt with.
    pub offset: nat,
    /// The highest memory sample so far.
    pub peak: usize,
    /// The documents whose pages are in the output, oldest first.
    pub merged: Seq<MergedDocument>,
}

/// What one event leads to.
pub struct Outcome {
    pub state: RunState,
    pub notices: Seq<Notice>,
    pub action: Action,
}

/// The notice that a sampling attempt gives rise to.
pub open spec fn memory_notice(sample: Option<usize>) -> Notice {
    match sample {
        Some(bytes) => Notice::MemoryUsage(bytes),
        None => Notice::MemoryUnavailable,
    }
}

/// A run that has not begun.
pub open spec fn initial(start: u32, count: u32, watermark: bool) -> RunState {
    RunState {
        start,
        count,
        watermark,
        stage: Stage::Starting,
        offset: 0,
        peak: 0,
        merged: Seq::empty(),
    }
}

impl RunState {
    /// The index the run is at.
    pub open spec fn index(self) -> u64 {
        (self.start + self.offset) as u64
    }

    /// Whether the run is inside the range, busy with the current index.
    pub open spec fn in_range(self) -> bool {
        match self.stage {
            Stage::Probing => true,
            Stage::Loading => true,
            Stage::Watermarking(_) => true,
            Stage::Appending(_) => true,
            Stage::AppendSample => true,
            _ => false,
        }
    }

    /// Whether the run has left the range behind without failing.
    pub open spec fn past_range(self) -> bool {
        match self.stage {
            Stage::FinalSample => true,
            Stage::Saving => true,
            Stage::SavedSample => true,
            Stage::Measuring => true,
            Stage::Done(_) => true,
            _ => false,
        }
    }

    /// How many indices can have contributed a document: those dealt with,
    /// and the current one once its pages are appended.
    pub open spec fn reach(self) -> nat {
        if self.stage == Stage::AppendSample {
            self.offset + 1
        } else {
            self.offset
        }
    }

    /// The states a run can be in: it never leaves its range, it has merged
    /// each index at most once and in ascending order, and only indices it
    /// has reached.
    pub open spec fn wf(self) -> bool {
        &&& self.offset <= self.count
        &&& self.in_range() ==> self.offset < self.count
        &&& self.past_range() ==> self.offset == self.count
        &&& self.stage == Stage::Starting || self.stage == Stage::SetupSample ==> self.offset == 0
        &&& self.merged.len() <= self.reach()
        &&& ascending(self.merged)
        &&& forall|i: int|
            0 <= i < self.merged.len() ==> self.start <= (#[trigger] self.merged[i]).index
                < self.start + self.reach()
        &&& self.stage == Stage::AppendSample ==> self.merged.len() > 0 && self.merged.last().index
            == self.index()
    }

    /// The action that the run waits to hear of.
    pub open spec fn pending(self) -> Action {
        match self.stage {
            Stage::Starting => Action::StartEngine,
            Stage::SetupSample => Action::SampleMemory,
            Stage::Probing => Action::Probe(self.index()),
            Stage::Loading => Action::Load(self.index()),
            Stage::Watermarking(_) => Action::Watermark,
            Stage::Appending(_) => Action::Append,
            Stage::AppendSample => Action::SampleMemory,
            Stage::FinalSample => Action::SampleMemory,
            Stage::Saving => Action::Save,
            Stage::SavedSample => Action::SampleMemory,
            Stage::Measuring => Action::Measure,
            Stage::Done(size) => Action::Report(size),
            Stage::Failed(kind) => Action::Abort(kind),
        }
    }

    /// The run with another stage.
    pub open spec fn at(self, stage: Stage) -> RunState {
        RunState { stage, ..self }
    }

    /// Turns to the index at the current offset: it is looked for, or, where
    /// the range is used up, the output is announced and memory sampled.
    pub open spec fn resume(self) -> Outcome {
        if self.offset < self.count {
            Outcome {
                state: self.at(Stage::Probing),
                notices: Seq::empty(),
                action: Action::Probe(self.index()),
            }
        } else {
            Outcome {
                state: self.at(Stage::FinalSample),
                notices: seq![Notice::Creating],
                action: Action::SampleMemory,
            }
        }
    }

    /// Leaves the current index behind and turns to the next.
    pub open spec fn advance(self) -> Outcome {
        (RunState { offset: self.offset + 1, ..self }).resume()
    }

    /// Gives the run up at the step named.
    pub open spec fn fail(self, kind: ErrorKind) -> Outcome {
        Outcome {
            state: self.at(Stage::Failed(kind)),
            notices: Seq::empty(),
            action: Action::Abort(kind),
        }
    }

    /// Moves to another stage with one notice at most.
    pub open spec fn go(self, stage: Stage, notices: Seq<Notice>) -> Outcome {
        Outcome { state: self.at(stage), notices, action: self.at(stage).pending() }
    }

    /// The run with a sampling attempt folded into its peak.
    pub open spec fn sampled(self, sample: Option<usize>) -> RunState {
        RunState { peak: peak_after(self.peak, sample), ..self }
    }

    /// Whether the event answers the action that the run waits to hear of.
    pub open spec fn accepts(self, event: Event) -> bool {
        match (self.stage, event) {
            (Stage::Starting, Event::EngineStarted) => true,
            (Stage::Starting, Event::EngineFailed) => true,
            (Stage::SetupSample, Event::Sampled(_)) => true,
            (Stage::Probing, Event::Found) => true,
            (Stage::Probing, Event::Missing) => true,
            (Stage::Loading, Event::Loaded(_)) => true,
            (Stage::Loading, Event::LoadFailed) => true,
            (Stage::Watermarking(_), Event::Watermarked) => true,
            (Stage::Watermarking(_), Event::WatermarkFailed) => true,
            (Stage::Appending(_), Event::Appended) => true,
            (Stage::Appending(_), Event::AppendFailed) => true,
            (Stage::AppendSample, Event::Sampled(_)) => true,
            (Stage::FinalSample, Event::Sampled(_)) => true,
            (Stage::Saving, Event::Saved) => true,
            (Stage::Saving, Event::SaveFailed) => true,
            (Stage::SavedSample, Event::Sampled(_)) => true,
            (Stage::Measuring, Event::Measured(_)) => true,
            (Stage::Measuring, Event::MeasureFailed) => true,
            _ => false,
        }
    }

    /// What an event leads to: the next state, what to print, what to do.
    pub open spec fn next(self, event: Event) -> Outcome {
        match (self.stage, event) {
            (Stage::Starting, Event::EngineStarted) => self.go(
                Stage::SetupSample,
                seq![Notice::Merging(self.count)],
            ),
            (Stage::Starting, Event::EngineFailed) => self.fail(ErrorKind::EngineInit),
            (Stage::SetupSample, Event::Sampled(sample)) => {
                let then = self.sampled(sample).resume();
                Outcome { notices: seq![memory_notice(sample)] + then.notices, ..then }
            },
            (Stage::Probing, Event::Found) => self.go(
                Stage::Loading,
                seq![Notice::Adding(self.index())],
            ),
            (Stage::Probing, Event::Missing) => {
                let then = self.advance();
                Outcome { notices: seq![Notice::Skipped(self.index())] + then.notices, ..then }
            },
            (Stage::Loading, Event::Loaded(pages)) => self.go(
                if self.watermark {
                    Stage::Watermarking(pages)
                } else {
                    Stage::Appending(pages)
                },
                seq![Notice::Imported(self.index())],
            ),
            (Stage::Loading, Event::LoadFailed) => {
                let then = self.advance();
                Outcome {
                    notices: seq![Notice::ImportFailed(self.index())] + then.notices,
                    ..then
                }
            },
            (Stage::Watermarking(pages), Event::Watermarked) => self.go(
                Stage::Appending(pages),
                seq![Notice::Watermarked(pages)],
            ),
            (Stage::Watermarking(_), Event::WatermarkFailed) => self.fail(ErrorKind::Watermark),
            (Stage::Appending(pages), Event::Appended) => (RunState {
                merged: self.merged.push(MergedDocument { index: self.index(), pages }),
                ..self
            }).go(Stage::AppendSample, Seq::empty()),
            (Stage::Appending(_), Event::AppendFailed) => self.fail(ErrorKind::Append),
            (Stage::AppendSample, Event::Sampled(sample)) => {
                let then = self.sampled(sample).advance();
                Outcome { notices: seq![memory_notice(sample)] + then.notices, ..then }
            },
            (Stage::FinalSample, Event::Sampled(sample)) => self.sampled(sample).go(
                Stage::Saving,
                seq![memory_notice(sample)],
            ),
            (Stage::Saving, Event::Saved) => self.go(Stage::SavedSample, Seq::empty()),
            (Stage::Saving, Event::SaveFailed) => self.fail(ErrorKind::Save),
            (Stage::SavedSample, Event::Sampled(sample)) => self.sampled(sample).go(
                Stage::Measuring,
                seq![memory_notice(sample)],
            ),
            (Stage::Measuring, Event::Measured(size)) => self.go(Stage::Done(size), Seq::empty()),
            (Stage::Measuring, Event::MeasureFailed) => self.fail(ErrorKind::Stat),
            _ => Outcome { state: self, notices: Seq::empty(), action: self.pending() },
        }
    }
}

/// What a run answers to an event.
#[derive(Clone, Debug)]
pub struct Turn {
    /// What to print, in order.
    pub notices: Vec<Notice>,
    /// What to do next.
    pub action: Action,
}

/// One run.
#[derive(Clone, Debug)]
pub struct MergeRun {
    start: u32,
    count: u32,
    watermark: bool,
    stage: Stage,
    offset: u32,
    peak: usize,
    merged: Vec<MergedDocument>,
}

impl View for MergeRun {
    type V = RunState;

    closed spec fn view(&self) -> RunState {
        RunState {
            start: self.start,
            count: self.count,
            watermark: self.watermark,
            stage: self.stage,
            offset: self.offset as nat,
            peak: self.peak,
            merged: self.merged@,
        }
    }
}

impl MergeRun {
    /// Whether the run is in a state that a run can be in.
    pub open spec fn wf(&self) -> bool {
        self@.wf()
    }

    /// A run over the range that `config` names, not yet begun.
    pub fn new(config: &Args) -> (run: MergeRun)
        ensures
            run@ == initial(config.start, config.count, config.watermark),
            run.wf(),
    {
        MergeRun {
            start: config.start,
            count: config.count,
            watermark: config.watermark,
            stage: Stage::Starting,
            offset: 0,
            peak: 0,
            merged: Vec::new(),
        }
    }

    /// Where the run stands.
    pub fn stage(&self) -> (stage: Stage)
        ensures
            stage == self@.stage,
    {
        self.stage
    }

    /// Whether the run waits to hear of an append.
    pub fn awaits_append(&self) -> (waits: bool)
        ensures
            waits == (self@.stage is Appending),
    {
        match self.stage {
            Stage::Appending(_) => true,
            _ => false,
        }
    }

    /// The highest memory sample so far, in bytes; zero before the first.
    pub fn peak(&self) -> (peak: usize)
        ensures
            peak == self@.peak,
    {
        self.peak
    }

    /// The documents whose pages are in the output, in the order they were
    /// merged.
    pub fn merged(&self) -> (log: &Vec<MergedDocument>)
        ensures
            log@ == self@.merged,
    {
        &self.merged
    }

    /// The pages of the output, in order.
    pub fn pages(&self) -> (pages: Vec<PageRef>)
        ensures
            pages@ == page_sequence(self@.merged),
    {
        output_pages(&self.merged)
    }

    fn index(&self) -> (index: u64)
        ensures
            index == self@.index(),
    {
        self.start as u64 + self.offset as u64
    }

    /// The action that the run waits to hear of.
    pub fn pending(&self) -> (action: Action)
        ensures
            action == self@.pending(),
    {
        match self.stage {
            Stage::Starting => Action::StartEngine,
            Stage::SetupSample => Action::SampleMemory,
            Stage::Probing => Action::Probe(self.index()),
            Stage::Loading => Action::Load(self.index()),
            Stage::Watermarking(_) => Action::Watermark,
            Stage::Appending(_) => Action::Append,
            Stage::AppendSample => Action::SampleMemory,
            Stage::FinalSample => Action::SampleMemory,
            Stage::Saving => Action::Save,
            Stage::SavedSample => Action::SampleMemory,
            Stage::Measuring => Action::Measure,
            Stage::Done(size) => Action::Report(size),
            Stage::Failed(kind) => Action::Abort(kind),
        }
    }

    fn resume(&mut self, notices: &mut Vec<Notice>) -> (action: Action)
        requires
            old(self).offset <= old(self).count,
        ensures
            final(self)@ == old(self)@.resume().state,
            final(notices)@ == old(notices)@ + old(self)@.resume().notices,
            action == old(self)@.resume().action,
    {
        if self.offset < self.count {
            self.stage = Stage::Probing;
            assert(notices@ =~= old(notices)@ + old(self)@.resume().notices);
            Action::Probe(self.index())
        } else {
            self.stage = Stage::FinalSample;
            notices.push(Notice::Creating);
            assert(notices@ =~= old(notices)@ + old(self)@.resume().notices);
            Action::SampleMemory
        }
    }

    fn advance(&mut self, notices: &mut Vec<Notice>) -> (action: Action)
        requires
            old(self).offset < old(self).count,
        ensures
            final(self)@ == old(self)@.advance().state,
            final(notices)@ == old(notices)@ + old(self)@.advance().notices,
            action == old(self)@.advance().action,
    {
        self.offset = self.offset + 1;
        self.resume(notices)
    }

    fn fail(&mut self, kind: ErrorKind) -> (action: Action)
        ensures
            final(self)@ == old(self)@.fail(kind).state,
            action == old(self)@.fail(kind).action,
    {
        self.stage = Stage::Failed(kind);
        Action::Abort(kind)
    }

    fn sampled(&mut self, sample: Option<usize>, notices: &mut Vec<Notice>)
        ensures
            final(self)@ == old(self)@.sampled(sample),
            final(notices)@ == old(notices)@.push(memory_notice(sample)),
    {
        record_sample(&mut self.peak, sample);
        match sample {
            Some(bytes) => {
                notices.push(Notice::MemoryUsage(bytes));
            },
            None => {
                notices.push(Notice::MemoryUnavailable);
            },
        }
    }

    /// Takes in what happened outside and answers with what to print and what
    /// to do next.
    pub fn step(&mut self, event: Event) -> (turn: Turn)
        requires
            old(self).wf(),
        ensures
            final(self).wf(),
            final(self)@ == old(self)@.next(event).state,
            turn.notices@ == old(self)@.next(event).notices,
            turn.action == old(self)@.next(event).action,
    {
        let mut notices: Vec<Notice> = Vec::new();
        let index = self.index();
        let action = match (self.stage, event) {
            (Stage::Starting, Event::EngineStarted) => {
                self.stage = Stage::SetupSample;
                notices.push(Notice::Merging(self.count));
                Action::SampleMemory
            },
            (Stage::Starting, Event::EngineFailed) => self.fail(ErrorKind::EngineInit),
            (Stage::SetupSample, Event::Sampled(sample)) => {
                self.sampled(sample, &mut notices);
                self.resume(&mut notices)
            },
            (Stage::Probing, Event::Found) => {
                self.stage = Stage::Loading;
                notices.push(Notice::Adding(index));
                Action::Load(index)
            },
            (Stage::Probing, Event::Missing) => {
                notices.push(Notice::Skipped(index));
                self.advance(&mut notices)
            },
            (Stage::Loading, Event::Loaded(pages)) => {
                notices.push(Notice::Imported(index));
                if self.watermark {
                    self.stage = Stage::Watermarking(pages);
                    Action::Watermark
                } else {
                    self.stage = Stage::Appending(pages);
                    Action::Append
                }
            },
            (Stage::Loading, Event::LoadFailed) => {
                notices.push(Notice::ImportFailed(index));
                self.advance(&mut notices)
            },
            (Stage::Watermarking(pages), Event::Watermarked) => {
                self.stage = Stage::Appending(pages);
                notices.push(Notice::Watermarked(pages));
                Action::Append
            },
            (Stage::Watermarking(_), Event::WatermarkFailed) => self.fail(ErrorKind::Watermark),
            (Stage::Appending(pages), Event::Appended) => {
                self.merged.push(MergedDocument { index, pages });
                self.stage = Stage::AppendSample;
                Action::SampleMemory
            },
            (Stage::Appending(_), Event::AppendFailed) => self.fail(ErrorKind::Append),
            (Stage::AppendSample, Event::Sampled(sample)) => {
                self.sampled(sample, &mut notices);
                self.advance(&mut notices)
            },
            (Stage::FinalSample, Event::Sampled(sample)) => {
                self.sampled(sample, &mut notices);
                self.stage = Stage::Saving;
                Action::Save
            },
            (Stage::Saving, Event::Saved) => {
                self.stage = Stage::SavedSample;
                Action::SampleMemory
            },
            (Stage::Saving, Event::SaveFailed) => self.fail(ErrorKind::Save),
            (Stage::SavedSample, Event::Sampled(sample)) => {
                self.sampled(sample, &mut notices);
                self.stage = Stage::Measuring;
                Action::Measure
            },
            (Stage::Measuring, Event::Measured(size)) => {
                self.stage = Stage::Done(size);
                Action::Report(size)
            },
            (Stage::Measuring, Event::MeasureFailed) => self.fail(ErrorKind::Stat),
            _ => self.pending(),
        };
        proof {
            assert(notices@ =~= old(self)@.next(event).notices);
            assert(self@.merged =~= old(self)@.next(event).state.merged);
            lemma_next_keeps_wf(old(self)@, event);
        }
        Turn { notices, action }
    }

    /// Samples the memory in use and lets the run take it in as the event
    /// that answers a request for a sample. Returns the sample with the turn.
    pub fn sample_memory(&mut self) -> (sampled: (Option<usize>, Turn))
        requires
            old(self).wf(),
        ensures
            final(self).wf(),
            final(self)@ == old(self)@.next(Event::Sampled(sampled.0)).state,
            sampled.1.notices@ == old(self)@.next(Event::Sampled(sampled.0)).notices,
            sampled.1.action == old(self)@.next(Event::Sampled(sampled.0)).action,
    {
        let sample = physical_memory();
        let turn = self.step(Event::Sampled(sample));
        (sample, turn)
    }
}

/// Whatever happens, a run stays in a state that a run can be in.
pub proof fn lemma_next_keeps_wf(state: RunState, event: Event)
    requires
        state.wf(),
    ensures
        state.next(event).state.wf(),
{
    let after = state.next(event).state;
    match (state.stage, event) {
        (Stage::Appending(pages), Event::Appended) => {
            let document = MergedDocument { index: state.index(), pages };
            assert(after.merged == state.merged.push(document));
            assert forall|i: int, j: int| 0 <= i < j < after.merged.len() implies after.merged[i].index
                < after.merged[j].index by {
                if j < state.merged.len() {
                    assert(after.merged[i] == state.merged[i]);
                    assert(after.merged[j] == state.merged[j]);
                } else {
                    assert(after.merged[i] == state.merged[i]);
                }
            }
            assert forall|i: int| 0 <= i < after.merged.len() implies state.start <= (
            #[trigger] after.merged[i]).index < state.start + after.reach() by {
                if i < state.merged.len() {
                    assert(after.merged[i] == state.merged[i]);
                }
            }
        },
        _ => {},
    }
}

} // verus!
