//! What holds of every run, proved from the transition of the run alone.

use vstd::prelude::*;
use crate::memory::lemma_peak_is_maximum;
use crate::memory::lemma_peak_never_falls;
use crate::memory::peak_over;
use crate::pages::ascending;
use crate::pages::lemma_page_total;
use crate::pages::page_sequence;
use crate::pages::total_pages;
use crate::pages::MergedDocument;
use crate::run::initial;
use crate::run::lemma_next_keeps_wf;
use crate::run::Event;
use crate::run::Notice;
use crate::run::RunState;
use crate::run::Stage;

verus! {

/// The state a run is in after a series of events, oldest first.
pub open spec fn replay(state: RunState, events: Seq<Event>) -> RunState
    decreases events.len(),
{
    if events.len() == 0 {
        state
    } else {
        replay(state, events.drop_last()).next(events.last()).state
    }
}

/// Everything a run asked to print over a series of events, in order.
pub open spec fn notices_of(state: RunState, events: Seq<Event>) -> Seq<Notice>
    decreases events.len(),
{
    if events.len() == 0 {
        Seq::empty()
    } else {
        notices_of(state, events.drop_last()) + replay(state, events.drop_last()).next(
            events.last(),
        ).notices
    }
}

/// The sampling attempts that a run took in over a series of events: those
/// that arrived while it waited for one.
pub open spec fn samples_of(state: RunState, events: Seq<Event>) -> Seq<Option<usize>>
    decreases events.len(),
{
    if events.len() == 0 {
        Seq::empty()
    } else {
        let before = replay(state, events.drop_last());
        let earlier = samples_of(state, events.drop_last());
        match events.last() {
            Event::Sampled(sample) => if before.accepts(events.last()) {
                earlier.push(sample)
            } else {
                earlier
            },
            _ => earlier,
        }
    }
}

/// A run stays in a state that a run can be in, whatever it is told.
pub proof fn lemma_replay_keeps_wf(state: RunState, events: Seq<Event>)
    requires
        state.wf(),
    ensures
        replay(state, events).wf(),
        replay(state, events).start == state.start,
        replay(state, events).count == state.count,
        replay(state, events).watermark == state.watermark,
    decreases events.len(),
{
    if events.len() > 0 {
        lemma_replay_keeps_wf(state, events.drop_last());
        lemma_next_keeps_wf(replay(state, events.drop_last()), events.last());
    }
}

/// The peak of a run is the peak over the sampling attempts it took in.
pub proof fn lemma_peak_follows_samples(state: RunState, events: Seq<Event>)
    ensures
        replay(state, events).peak == peak_over(state.peak, samples_of(state, events)),
    decreases events.len(),
{
    if events.len() > 0 {
        let front = events.drop_last();
        lemma_peak_follows_samples(state, front);
        let before = replay(state, front);
        match events.last() {
            Event::Sampled(sample) => {
                if before.accepts(events.last()) {
                    assert(samples_of(state, events).drop_last() =~= samples_of(state, front));
                }
            },
            _ => {},
        }
    }
}

/// The peak that a run reports never falls from one point of the run to a
/// later one, and at every point it is the maximum of the samples taken so
/// far: no sample lies above it, and it is one of them unless it is still
/// zero.
pub proof fn lemma_peak_is_running_maximum(
    start: u32,
    count: u32,
    watermark: bool,
    events: Seq<Event>,
    earlier: int,
)
    requires
        0 <= earlier <= events.len(),
    ensures
        replay(initial(start, count, watermark), events.take(earlier)).peak <= replay(
            initial(start, count, watermark),
            events,
        ).peak,
        forall|k: int|
            0 <= k < samples_of(initial(start, count, watermark), events).len() && (
            #[trigger] samples_of(initial(start, count, watermark), events)[k]).is_some()
                ==> samples_of(initial(start, count, watermark), events)[k].unwrap() <= replay(
                initial(start, count, watermark),
                events,
            ).peak,
        replay(initial(start, count, watermark), events).peak == 0 || exists|k: int|
            0 <= k < samples_of(initial(start, count, watermark), events).len() && (
            #[trigger] samples_of(initial(start, count, watermark), events)[k]) == Some(
                replay(initial(start, count, watermark), events).peak,
            ),
{
    let state = initial(start, count, watermark);
    lemma_peak_follows_samples(state, events);
    lemma_peak_is_maximum(0, samples_of(state, events));
    lemma_replay_extends(state, events.take(earlier), events.skip(earlier));
    assert(events.take(earlier) + events.skip(earlier) =~= events);
    lemma_peak_grows(replay(state, events.take(earlier)), events.skip(earlier));
}

/// Replaying one series after another is replaying them joined.
pub proof fn lemma_replay_extends(state: RunState, first: Seq<Event>, second: Seq<Event>)
    ensures
        replay(state, first + second) == replay(replay(state, first), second),
    decreases second.len(),
{
    if second.len() == 0 {
        assert(first + second =~= first);
    } else {
        lemma_replay_extends(state, first, second.drop_last());
        assert((first + second).drop_last() =~= first + second.drop_last());
        assert((first + second).last() == second.last());
    }
}

/// No event lowers the peak.
pub proof fn lemma_peak_grows(state: RunState, events: Seq<Event>)
    ensures
        state.peak <= replay(state, events).peak,
{
    lemma_peak_follows_samples(state, events);
    lemma_peak_never_falls(state.peak, samples_of(state, events));
}

/// A run over no indices merges nothing, whatever it is told: its output has
/// no pages, and after setup it goes straight on to write that output.
pub proof fn lemma_empty_range_merges_nothing(
    start: u32,
    watermark: bool,
    events: Seq<Event>,
    sample: Option<usize>,
)
    ensures
        replay(initial(start, 0, watermark), events).merged.len() == 0,
        page_sequence(replay(initial(start, 0, watermark), events).merged).len() == 0,
        initial(start, 0, watermark).next(Event::EngineStarted).state.next(
            Event::Sampled(sample),
        ).state.stage == Stage::FinalSample,
{
    lemma_replay_keeps_wf(initial(start, 0, watermark), events);
}

/// An upper bound on the answers a run still needs before it is over: five
/// for each index not yet dealt with, and a few for setup and for writing
/// the output.
pub open spec fn steps_left(state: RunState) -> nat {
    let indices_left = (state.count - state.offset) as nat;
    match state.stage {
        Stage::Starting => 5 * state.count as nat + 6,
        Stage::SetupSample => 5 * state.count as nat + 5,
        Stage::Probing => 5 * indices_left + 4,
        Stage::Loading => 5 * indices_left + 3,
        Stage::Watermarking(_) => 5 * indices_left + 2,
        Stage::Appending(_) => 5 * indices_left + 1,
        Stage::AppendSample => 5 * indices_left,
        Stage::FinalSample => 4,
        Stage::Saving => 3,
        Stage::SavedSample => 2,
        Stage::Measuring => 1,
        Stage::Done(_) => 0,
        Stage::Failed(_) => 0,
    }
}

/// Every answer brings the end of the run nearer, and anything that is no
/// answer leaves the run as it is. So a run that is answered ends, in a
/// report or in an error, after no more than five answers for each index
/// and six besides.
pub proof fn lemma_every_answer_brings_the_end_nearer(state: RunState, event: Event)
    requires
        state.wf(),
    ensures
        state.accepts(event) ==> steps_left(state.next(event).state) < steps_left(state),
        !state.accepts(event) ==> state.next(event).state == state && state.next(
            event,
        ).notices.len() == 0,
        steps_left(state) == 0 <==> state.stage is Done || state.stage is Failed,
        steps_left(state) <= 5 * state.count + 6,
{
}

/// What lies under one index of the source directory.
pub enum SourceFile {
    /// No file has the index.
    Absent,
    /// A file has the index but cannot be loaded.
    Unreadable,
    /// A document of so many pages has the index.
    Valid(u16),
}

/// The documents that the first `reach` indices of a range contribute, given
/// what lies under each index: the valid ones, in ascending order of index,
/// each with its own page count.
pub open spec fn valid_documents(
    files: spec_fn(u64) -> SourceFile,
    start: u32,
    reach: nat,
) -> Seq<MergedDocument>
    decreases reach,
{
    if reach == 0 {
        Seq::empty()
    } else {
        let earlier = valid_documents(files, start, (reach - 1) as nat);
        let index = (start + reach - 1) as u64;
        match files(index) {
            SourceFile::Valid(pages) => earlier.push(MergedDocument { index, pages }),
            _ => earlier,
        }
    }
}

/// The indices among the first `reach` of a range under which no file lies,
/// in ascending order.
pub open spec fn absent_indices(files: spec_fn(u64) -> SourceFile, start: u32, reach: nat) -> Seq<
    u64,
>
    decreases reach,
{
    if reach == 0 {
        Seq::empty()
    } else {
        let earlier = absent_indices(files, start, (reach - 1) as nat);
        let index = (start + reach - 1) as u64;
        match files(index) {
            SourceFile::Absent => earlier.push(index),
            _ => earlier,
        }
    }
}

/// The indices that a series of notices reports as skipped, in order.
pub open spec fn skipped_indices(notices: Seq<Notice>) -> Seq<u64>
    decreases notices.len(),
{
    if notices.len() == 0 {
        Seq::empty()
    } else {
        let earlier = skipped_indices(notices.drop_last());
        match notices.last() {
            Notice::Skipped(index) => earlier.push(index),
            _ => earlier,
        }
    }
}

/// Whether an event tells the truth about the source files: a file is found
/// exactly where one lies, and loads exactly where it is valid, with the
/// page count it has. Events on anything else are not judged.
pub open spec fn truthful(state: RunState, files: spec_fn(u64) -> SourceFile, event: Event) -> bool {
    match (state.stage, event) {
        (Stage::Probing, Event::Found) => files(state.index()) != SourceFile::Absent,
        (Stage::Probing, Event::Missing) => files(state.index()) == SourceFile::Absent,
        (Stage::Loading, Event::Loaded(pages)) => files(state.index()) == SourceFile::Valid(pages),
        (Stage::Loading, Event::LoadFailed) => files(state.index()) == SourceFile::Unreadable,
        _ => true,
    }
}

/// Whether every event of a series tells the truth about the source files.
pub open spec fn all_truthful(
    state: RunState,
    files: spec_fn(u64) -> SourceFile,
    events: Seq<Event>,
) -> bool {
    forall|k: int|
        0 <= k < events.len() ==> truthful(
            replay(state, #[trigger] events.take(k)),
            files,
            events[k],
        )
}

/// Whether an event reports a failure that ends the run.
pub open spec fn is_fatal(event: Event) -> bool {
    match event {
        Event::EngineFailed => true,
        Event::WatermarkFailed => true,
        Event::AppendFailed => true,
        Event::SaveFailed => true,
        Event::MeasureFailed => true,
        _ => false,
    }
}

/// What a run knows of the source files at each stage.
pub open spec fn agrees(
    state: RunState,
    files: spec_fn(u64) -> SourceFile,
    notices: Seq<Notice>,
) -> bool {
    &&& state.merged == valid_documents(files, state.start, state.reach())
    &&& skipped_indices(notices) == absent_indices(files, state.start, state.offset)
    &&& state.stage == Stage::Loading ==> files(state.index()) != SourceFile::Absent
    &&& match state.stage {
        Stage::Watermarking(pages) => files(state.index()) == SourceFile::Valid(pages),
        Stage::Appending(pages) => files(state.index()) == SourceFile::Valid(pages),
        Stage::AppendSample => files(state.index()) != SourceFile::Absent,
        _ => true,
    }
}

/// The skipped indices of two series of notices joined are those of the
/// first followed by those of the second.
pub proof fn lemma_skipped_indices_join(first: Seq<Notice>, second: Seq<Notice>)
    ensures
        skipped_indices(first + second) == skipped_indices(first) + skipped_indices(second),
    decreases second.len(),
{
    if second.len() == 0 {
        assert(first + second =~= first);
        assert(skipped_indices(first) + skipped_indices(second) =~= skipped_indices(first));
    } else {
        lemma_skipped_indices_join(first, second.drop_last());
        assert((first + second).drop_last() =~= first + second.drop_last());
        assert((first + second).last() == second.last());
        match second.last() {
            Notice::Skipped(index) => {
                assert(skipped_indices(first + second) =~= skipped_indices(first)
                    + skipped_indices(second));
            },
            _ => {},
        }
    }
}

/// The skipped indices of a series of notices, by its last notice.
proof fn lemma_skipped_indices_by_last(notices: Seq<Notice>)
    ensures
        notices.len() == 0 ==> skipped_indices(notices) == Seq::<u64>::empty(),
        notices.len() > 0 ==> skipped_indices(notices) == skipped_indices(notices.drop_last()) + (
        match notices.last() {
            Notice::Skipped(index) => seq![index],
            _ => Seq::<u64>::empty(),
        }),
{
    if notices.len() > 0 {
        match notices.last() {
            Notice::Skipped(index) => {
                assert(skipped_indices(notices.drop_last()).push(index) =~= skipped_indices(
                    notices.drop_last(),
                ) + seq![index]);
            },
            _ => {
                assert(skipped_indices(notices.drop_last()) =~= skipped_indices(
                    notices.drop_last(),
                ) + Seq::<u64>::empty());
            },
        }
    }
}

/// One truthful event keeps a run in agreement with the source files.
pub proof fn lemma_next_keeps_agreement(
    state: RunState,
    files: spec_fn(u64) -> SourceFile,
    notices: Seq<Notice>,
    event: Event,
)
    requires
        state.wf(),
        agrees(state, files, notices),
        truthful(state, files, event),
    ensures
        agrees(state.next(event).state, files, notices + state.next(event).notices),
{
    let outcome = state.next(event);
    let after = outcome.state;
    lemma_next_keeps_wf(state, event);
    lemma_skipped_indices_join(notices, outcome.notices);
    let told = outcome.notices;
    lemma_skipped_indices_by_last(told);
    if told.len() > 0 {
        lemma_skipped_indices_by_last(told.drop_last());
        if told.len() > 1 {
            lemma_skipped_indices_by_last(told.drop_last().drop_last());
        }
    }
    if state.accepts(event) {
        match (state.stage, event) {
            (Stage::Probing, Event::Missing) => {
                assert(skipped_indices(told) =~= seq![state.index()]);
            },
            _ => {
                assert(skipped_indices(told) =~= Seq::<u64>::empty());
            },
        }
    } else {
        assert(notices + told =~= notices);
    }
    assert(skipped_indices(notices + told) =~= absent_indices(files, after.start, after.offset));
}

/// A run told the truth about the source files stays in agreement with them.
pub proof fn lemma_replay_keeps_agreement(
    start: u32,
    count: u32,
    watermark: bool,
    files: spec_fn(u64) -> SourceFile,
    events: Seq<Event>,
)
    requires
        all_truthful(initial(start, count, watermark), files, events),
    ensures
        agrees(
            replay(initial(start, count, watermark), events),
            files,
            notices_of(initial(start, count, watermark), events),
        ),
        replay(initial(start, count, watermark), events).wf(),
    decreases events.len(),
{
    let state = initial(start, count, watermark);
    lemma_replay_keeps_wf(state, events);
    if events.len() > 0 {
        let front = events.drop_last();
        assert forall|k: int| 0 <= k < front.len() implies truthful(
            replay(state, #[trigger] front.take(k)),
            files,
            front[k],
        ) by {
            assert(front.take(k) =~= events.take(k));
            assert(front[k] == events[k]);
        }
        lemma_replay_keeps_agreement(start, count, watermark, files, front);
        lemma_replay_keeps_wf(state, front);
        assert(events.take(events.len() - 1) =~= front);
        lemma_next_keeps_agreement(
            replay(state, front),
            files,
            notices_of(state, front),
            events.last(),
        );
    } else {
        assert(state.merged =~= valid_documents(files, start, 0));
    }
}

/// The valid documents of a range are those and only those indices of the
/// range under which a valid document lies, each with its page count, and
/// their indices ascend.
pub proof fn lemma_valid_documents_are_the_valid(
    files: spec_fn(u64) -> SourceFile,
    start: u32,
    reach: nat,
)
    requires
        start + reach <= u64::MAX,
    ensures
        valid_documents(files, start, reach).len() <= reach,
        forall|d: int|
            0 <= d < valid_documents(files, start, reach).len() ==> {
                let document = #[trigger] valid_documents(files, start, reach)[d];
                &&& start <= document.index < start + reach
                &&& files(document.index) == SourceFile::Valid(document.pages)
            },
        forall|index: u64|
            start <= index < start + reach ==> match #[trigger] files(index) {
                SourceFile::Valid(pages) => valid_documents(files, start, reach).contains(
                    MergedDocument { index, pages },
                ),
                _ => true,
            },
        forall|c: int, d: int|
            0 <= c < d < valid_documents(files, start, reach).len() ==> valid_documents(
                files,
                start,
                reach,
            )[c].index < valid_documents(files, start, reach)[d].index,
    decreases reach,
{
    if reach > 0 {
        let earlier = valid_documents(files, start, (reach - 1) as nat);
        let now = valid_documents(files, start, reach);
        let last = (start + reach - 1) as u64;
        lemma_valid_documents_are_the_valid(files, start, (reach - 1) as nat);
        assert forall|index: u64| start <= index < start + reach implies match #[trigger] files(
            index,
        ) {
            SourceFile::Valid(pages) => now.contains(MergedDocument { index, pages }),
            _ => true,
        } by {
            if let SourceFile::Valid(pages) = files(index) {
                let document = MergedDocument { index, pages };
                if index == last {
                    assert(now[now.len() - 1] == document);
                } else {
                    assert(earlier.contains(document));
                    let d = choose|d: int| 0 <= d < earlier.len() && earlier[d] == document;
                    assert(now[d] == earlier[d]);
                }
            }
        }
    }
}

/// Where no file lies under any index, every index of the range is absent.
pub proof fn lemma_all_absent(files: spec_fn(u64) -> SourceFile, start: u32, reach: nat)
    requires
        start + reach <= u64::MAX,
        forall|index: u64| start <= index < start + reach ==> #[trigger] files(index)
            == SourceFile::Absent,
    ensures
        valid_documents(files, start, reach).len() == 0,
        absent_indices(files, start, reach) == Seq::new(reach, |k: int| (start + k) as u64),
    decreases reach,
{
    if reach > 0 {
        lemma_all_absent(files, start, (reach - 1) as nat);
        assert(files((start + reach - 1) as u64) == SourceFile::Absent);
    }
    assert(absent_indices(files, start, reach) =~= Seq::new(reach, |k: int| (start + k) as u64));
}

/// A run told the truth about the source files merges the valid documents
/// of the indices it has dealt with, and nothing else: missing and
/// unreadable files contribute nothing, the documents stand in ascending
/// order of index, and the output has as many pages as they have together.
/// Once the run is past its range, that is every valid document of the range.
pub proof fn lemma_output_is_the_valid_documents(
    start: u32,
    count: u32,
    watermark: bool,
    files: spec_fn(u64) -> SourceFile,
    events: Seq<Event>,
)
    requires
        all_truthful(initial(start, count, watermark), files, events),
    ensures
        ({
            let end = replay(initial(start, count, watermark), events);
            &&& end.merged == valid_documents(files, start, end.reach())
            &&& end.reach() <= count
            &&& end.past_range() ==> end.merged == valid_documents(files, start, count as nat)
            &&& page_sequence(end.merged).len() == total_pages(end.merged)
            &&& ascending(end.merged)
        }),
{
    lemma_replay_keeps_wf(initial(start, count, watermark), events);
    lemma_replay_keeps_agreement(start, count, watermark, files, events);
    lemma_page_total(replay(initial(start, count, watermark), events).merged);
}

/// What a run puts out is settled by the source files alone: two runs over
/// the same range and the same files without watermark, each told the truth
/// and each past its range, have merged the same documents and hold the same
/// pages in the same order, whatever memory samples they took.
pub proof fn lemma_same_files_same_output(
    start: u32,
    count: u32,
    files: spec_fn(u64) -> SourceFile,
    first: Seq<Event>,
    second: Seq<Event>,
)
    requires
        all_truthful(initial(start, count, false), files, first),
        all_truthful(initial(start, count, false), files, second),
        replay(initial(start, count, false), first).past_range(),
        replay(initial(start, count, false), second).past_range(),
    ensures
        replay(initial(start, count, false), first).merged == replay(
            initial(start, count, false),
            second,
        ).merged,
        page_sequence(replay(initial(start, count, false), first).merged) == page_sequence(
            replay(initial(start, count, false), second).merged,
        ),
{
    lemma_output_is_the_valid_documents(start, count, false, files, first);
    lemma_output_is_the_valid_documents(start, count, false, files, second);
}

/// A run told, truthfully, that a file is missing under every index merges
/// nothing, and reports each index it has dealt with as skipped, once and in
/// ascending order.
pub proof fn lemma_nothing_found_merges_nothing(
    start: u32,
    count: u32,
    watermark: bool,
    files: spec_fn(u64) -> SourceFile,
    events: Seq<Event>,
)
    requires
        forall|index: u64| #[trigger] files(index) == SourceFile::Absent,
        all_truthful(initial(start, count, watermark), files, events),
    ensures
        ({
            let end = replay(initial(start, count, watermark), events);
            let told = notices_of(initial(start, count, watermark), events);
            &&& end.merged.len() == 0
            &&& page_sequence(end.merged).len() == 0
            &&& skipped_indices(told) == Seq::new(end.offset, |k: int| (start + k) as u64)
            &&& end.past_range() ==> skipped_indices(told).len() == count
        }),
{
    let end = replay(initial(start, count, watermark), events);
    lemma_replay_keeps_wf(initial(start, count, watermark), events);
    lemma_replay_keeps_agreement(start, count, watermark, files, events);
    lemma_all_absent(files, start, end.reach());
    lemma_all_absent(files, start, end.offset);
}

/// Whether a notice tells of a file that was found.
pub open spec fn tells_of_a_file(notice: Notice) -> bool {
    match notice {
        Notice::Adding(_) => true,
        Notice::Imported(_) => true,
        Notice::ImportFailed(_) => true,
        Notice::Watermarked(_) => true,
        _ => false,
    }
}

/// A run told, truthfully, that a file is missing under every index never
/// tries to load, label or append anything, and prints no line about a
/// file that was found.
pub proof fn lemma_nothing_found_tells_of_no_file(
    start: u32,
    count: u32,
    watermark: bool,
    files: spec_fn(u64) -> SourceFile,
    events: Seq<Event>,
)
    requires
        forall|index: u64| #[trigger] files(index) == SourceFile::Absent,
        all_truthful(initial(start, count, watermark), files, events),
    ensures
        ({
            let end = replay(initial(start, count, watermark), events);
            &&& end.stage != Stage::Loading
            &&& !(end.stage is Watermarking)
            &&& !(end.stage is Appending)
            &&& end.stage != Stage::AppendSample
        }),
        forall|k: int|
            0 <= k < notices_of(initial(start, count, watermark), events).len()
                ==> !tells_of_a_file(
                #[trigger] notices_of(initial(start, count, watermark), events)[k],
            ),
    decreases events.len(),
{
    let state = initial(start, count, watermark);
    lemma_replay_keeps_agreement(start, count, watermark, files, events);
    assert(files(replay(state, events).index()) == SourceFile::Absent);
    if events.len() > 0 {
        let front = events.drop_last();
        assert forall|k: int| 0 <= k < front.len() implies truthful(
            replay(state, #[trigger] front.take(k)),
            files,
            front[k],
        ) by {
            assert(front.take(k) =~= events.take(k));
            assert(front[k] == events[k]);
        }
        lemma_nothing_found_tells_of_no_file(start, count, watermark, files, front);
        let before = replay(state, front);
        assert(events.take(events.len() - 1) =~= front);
        assert(truthful(before, files, events.last()));
        assert(files(before.index()) == SourceFile::Absent);
        let told = before.next(events.last()).notices;
        assert forall|k: int| 0 <= k < told.len() implies !tells_of_a_file(#[trigger] told[k]) by {}
        let earlier = notices_of(state, front);
        let all = notices_of(state, events);
        assert(all == earlier + told);
        assert forall|k: int| 0 <= k < all.len() implies !tells_of_a_file(#[trigger] all[k]) by {
            if k < earlier.len() {
                assert(all[k] == earlier[k]);
            } else {
                assert(all[k] == told[k - earlier.len()]);
            }
        }
    }
}

/// How many samples a run has taken by the time it stands at a stage: one
/// after setup, one after each append, one before the output is written
/// and one after.
pub open spec fn samples_due(state: RunState) -> nat {
    let merged = state.merged.len();
    match state.stage {
        Stage::Starting => 0,
        Stage::SetupSample => 0,
        Stage::Probing => merged + 1,
        Stage::Loading => merged + 1,
        Stage::Watermarking(_) => merged + 1,
        Stage::Appending(_) => merged + 1,
        Stage::AppendSample => merged,
        Stage::FinalSample => merged + 1,
        Stage::Saving => merged + 2,
        Stage::SavedSample => merged + 2,
        Stage::Measuring => merged + 3,
        Stage::Done(_) => merged + 3,
        Stage::Failed(_) => 0,
    }
}

/// A run that has not failed has taken the samples that are due at its
/// stage, and no others. A finished run has taken exactly one sample for
/// each document it merged, and three more.
pub proof fn lemma_samples_follow_the_stage(
    start: u32,
    count: u32,
    watermark: bool,
    events: Seq<Event>,
)
    ensures
        ({
            let end = replay(initial(start, count, watermark), events);
            let taken = samples_of(initial(start, count, watermark), events);
            &&& !(end.stage is Failed) ==> taken.len() == samples_due(end)
            &&& end.stage is Done ==> taken.len() == end.merged.len() + 3
        }),
    decreases events.len(),
{
    let state = initial(start, count, watermark);
    if events.len() > 0 {
        let front = events.drop_last();
        lemma_samples_follow_the_stage(start, count, watermark, front);
        lemma_replay_keeps_wf(state, front);
    }
}

/// A run fails only when it is told of a failure: as long as the engine
/// starts and no watermark, append, save or size query fails, it does not
/// end in an error, however many files are missing or unreadable.
pub proof fn lemma_fails_only_on_failure(
    start: u32,
    count: u32,
    watermark: bool,
    events: Seq<Event>,
)
    requires
        forall|k: int| 0 <= k < events.len() ==> !is_fatal(#[trigger] events[k]),
    ensures
        !(replay(initial(start, count, watermark), events).stage is Failed),
    decreases events.len(),
{
    if events.len() > 0 {
        let front = events.drop_last();
        assert forall|k: int| 0 <= k < front.len() implies !is_fatal(#[trigger] front[k]) by {
            assert(front[k] == events[k]);
        }
        lemma_fails_only_on_failure(start, count, watermark, front);
        assert(!is_fatal(events[events.len() - 1]));
    }
}

} // verus!
