use pdf_merge::config::Args;
use pdf_merge::console::notice_lines;
use pdf_merge::error::ErrorKind;
use pdf_merge::pages::{MergedDocument, PageRef};
use pdf_merge::run::{Action, Event, MergeRun, Notice, Stage, Turn};

#[derive(Clone, Copy)]
enum File {
    Absent,
    Broken,
    Valid(u16),
}

fn config(start: u32, count: u32, watermark: bool) -> Args {
    Args {
        start,
        count,
        watermark,
        source_directory: String::from("./in"),
        target: String::from("out.pdf"),
    }
}

fn file_at(files: &[(u64, File)], index: u64) -> File {
    for (at, file) in files {
        if *at == index {
            return *file;
        }
    }
    File::Absent
}

/// Plays a whole run against a directory listing, answering every action as
/// a working engine would. Samples are taken from `samples` in turn, and
/// `None` is reported once they are used up.
fn play(
    args: &Args,
    files: &[(u64, File)],
    samples: &[Option<usize>],
    size: u64,
) -> (MergeRun, Vec<Notice>, Action) {
    let mut run = MergeRun::new(args);
    let mut notices = Vec::new();
    let mut next_sample = 0;
    let mut action = run.pending();
    for _ in 0..10_000 {
        let event = match action {
            Action::StartEngine => Event::EngineStarted,
            Action::SampleMemory => {
                let sample = samples.get(next_sample).copied().flatten();
                next_sample += 1;
                Event::Sampled(sample)
            }
            Action::Probe(index) => match file_at(files, index) {
                File::Absent => Event::Missing,
                _ => Event::Found,
            },
            Action::Load(index) => match file_at(files, index) {
                File::Valid(pages) => Event::Loaded(pages),
                _ => Event::LoadFailed,
            },
            Action::Watermark => Event::Watermarked,
            Action::Append => Event::Appended,
            Action::Save => Event::Saved,
            Action::Measure => Event::Measured(size),
            Action::Report(_) | Action::Abort(_) => return (run, notices, action),
        };
        let Turn { notices: told, action: then } = run.step(event);
        notices.extend(told);
        action = then;
    }
    panic!("the run did not end");
}

fn skipped(notices: &[Notice]) -> Vec<u64> {
    notices
        .iter()
        .filter_map(|notice| match notice {
            Notice::Skipped(index) => Some(*index),
            _ => None,
        })
        .collect()
}

#[test]
fn a_new_run_asks_for_the_engine() {
    let run = MergeRun::new(&config(1, 3, false));
    assert_eq!(run.stage(), Stage::Starting);
    assert_eq!(run.pending(), Action::StartEngine);
    assert_eq!(run.peak(), 0);
    assert!(run.merged().is_empty());
    assert!(run.pages().is_empty());
}

#[test]
fn setup_announces_the_count_and_samples_memory() {
    let mut run = MergeRun::new(&config(1, 3, false));
    let turn = run.step(Event::EngineStarted);
    assert_eq!(turn.notices, vec![Notice::Merging(3)]);
    assert_eq!(turn.action, Action::SampleMemory);
    let turn = run.step(Event::Sampled(Some(4096)));
    assert_eq!(turn.notices, vec![Notice::MemoryUsage(4096)]);
    assert_eq!(turn.action, Action::Probe(1));
    assert_eq!(run.peak(), 4096);
}

#[test]
fn an_empty_range_goes_straight_to_the_output() {
    let args = config(7, 0, true);
    let mut run = MergeRun::new(&args);
    run.step(Event::EngineStarted);
    let turn = run.step(Event::Sampled(None));
    assert_eq!(turn.notices, vec![Notice::MemoryUnavailable, Notice::Creating]);
    assert_eq!(turn.action, Action::SampleMemory);
    assert_eq!(run.stage(), Stage::FinalSample);

    let (run, notices, action) = play(&args, &[(7, File::Valid(5))], &[], 321);
    assert_eq!(action, Action::Report(321));
    assert_eq!(run.stage(), Stage::Done(321));
    assert!(run.merged().is_empty());
    assert!(run.pages().is_empty());
    assert!(skipped(&notices).is_empty());
    assert_eq!(notices[0], Notice::Merging(0));
}

#[test]
fn a_directory_without_files_yields_an_empty_output() {
    let args = config(10, 4, false);
    let (run, notices, action) = play(&args, &[], &[], 99);
    assert_eq!(action, Action::Report(99));
    assert!(run.merged().is_empty());
    assert!(run.pages().is_empty());
    assert_eq!(skipped(&notices), vec![10, 11, 12, 13]);
}

#[test]
fn only_valid_files_are_merged_in_ascending_order() {
    let args = config(100, 6, false);
    let files = [
        (100, File::Valid(2)),
        (101, File::Broken),
        (103, File::Valid(1)),
        (104, File::Valid(0)),
        (105, File::Valid(3)),
        (106, File::Valid(9)),
    ];
    let (run, notices, action) = play(&args, &files, &[], 1);
    assert_eq!(action, Action::Report(1));
    assert_eq!(
        run.merged(),
        &vec![
            MergedDocument { index: 100, pages: 2 },
            MergedDocument { index: 103, pages: 1 },
            MergedDocument { index: 104, pages: 0 },
            MergedDocument { index: 105, pages: 3 },
        ]
    );
    let pages = run.pages();
    assert_eq!(pages.len(), 2 + 1 + 0 + 3);
    for pair in pages.windows(2) {
        assert!((pair[0].source, pair[0].position) < (pair[1].source, pair[1].position));
    }
    assert_eq!(skipped(&notices), vec![102]);
    assert!(notices.contains(&Notice::ImportFailed(101)));
    assert!(!notices.contains(&Notice::Imported(101)));
}

#[test]
fn example_run_of_three_indices() {
    let args = config(1, 3, false);
    let files = [(1, File::Valid(2)), (3, File::Valid(1))];
    let (run, notices, action) = play(&args, &files, &[], 2048);
    assert_eq!(action, Action::Report(2048));
    assert_eq!(
        run.pages(),
        vec![
            PageRef { source: 1, position: 0 },
            PageRef { source: 1, position: 1 },
            PageRef { source: 3, position: 0 },
        ]
    );
    assert_eq!(skipped(&notices), vec![2]);
    let lines: Vec<String> = notices
        .iter()
        .filter(|notice| matches!(notice, Notice::Skipped(_)))
        .flat_map(|notice| notice_lines(&args, *notice, ""))
        .collect();
    assert_eq!(lines, vec![String::from("Skipping ./in/2.pdf as it does not exist.")]);
}

#[test]
fn numbering_restarts_with_each_document() {
    let args = config(1, 2, true);
    let files = [(1, File::Valid(3)), (2, File::Valid(2))];
    let (run, notices, _) = play(&args, &files, &[], 1);
    let labels: Vec<String> = run.pages().iter().map(|page| page.label()).collect();
    assert_eq!(labels, vec!["Page 1", "Page 2", "Page 3", "Page 1", "Page 2"]);
    assert!(notices.contains(&Notice::Watermarked(3)));
    assert!(notices.contains(&Notice::Watermarked(2)));
}

#[test]
fn watermarking_comes_between_load_and_append() {
    let mut run = MergeRun::new(&config(5, 1, true));
    run.step(Event::EngineStarted);
    run.step(Event::Sampled(None));
    let turn = run.step(Event::Found);
    assert_eq!(turn.notices, vec![Notice::Adding(5)]);
    assert_eq!(turn.action, Action::Load(5));
    let turn = run.step(Event::Loaded(4));
    assert_eq!(turn.notices, vec![Notice::Imported(5)]);
    assert_eq!(turn.action, Action::Watermark);
    assert_eq!(run.stage(), Stage::Watermarking(4));
    let turn = run.step(Event::Watermarked);
    assert_eq!(turn.notices, vec![Notice::Watermarked(4)]);
    assert_eq!(turn.action, Action::Append);
    let turn = run.step(Event::Appended);
    assert!(turn.notices.is_empty());
    assert_eq!(turn.action, Action::SampleMemory);
    let turn = run.step(Event::Sampled(Some(10)));
    assert_eq!(turn.notices, vec![Notice::MemoryUsage(10), Notice::Creating]);
    assert_eq!(turn.action, Action::SampleMemory);
}

#[test]
fn without_watermark_a_loaded_document_is_appended_at_once() {
    let mut run = MergeRun::new(&config(5, 1, false));
    run.step(Event::EngineStarted);
    run.step(Event::Sampled(None));
    run.step(Event::Found);
    let turn = run.step(Event::Loaded(4));
    assert_eq!(turn.action, Action::Append);
    assert_eq!(run.stage(), Stage::Appending(4));
}

#[test]
fn the_end_of_a_run_saves_samples_measures_and_reports() {
    let mut run = MergeRun::new(&config(5, 0, false));
    run.step(Event::EngineStarted);
    run.step(Event::Sampled(Some(1)));
    let turn = run.step(Event::Sampled(Some(2)));
    assert_eq!(turn.notices, vec![Notice::MemoryUsage(2)]);
    assert_eq!(turn.action, Action::Save);
    let turn = run.step(Event::Saved);
    assert!(turn.notices.is_empty());
    assert_eq!(turn.action, Action::SampleMemory);
    let turn = run.step(Event::Sampled(Some(3)));
    assert_eq!(turn.notices, vec![Notice::MemoryUsage(3)]);
    assert_eq!(turn.action, Action::Measure);
    let turn = run.step(Event::Measured(77));
    assert!(turn.notices.is_empty());
    assert_eq!(turn.action, Action::Report(77));
    assert_eq!(run.stage(), Stage::Done(77));
    assert_eq!(run.peak(), 3);
    let turn = run.step(Event::Saved);
    assert_eq!(turn.action, Action::Report(77));
}

#[test]
fn the_peak_is_the_largest_sample() {
    let args = config(1, 2, false);
    let files = [(1, File::Valid(1)), (2, File::Valid(1))];
    let samples = [Some(50), Some(900), None, Some(20), Some(899)];
    let (run, notices, _) = play(&args, &files, &samples, 1);
    assert_eq!(run.peak(), 900);
    let reported: Vec<Notice> = notices
        .into_iter()
        .filter(|n| matches!(n, Notice::MemoryUsage(_) | Notice::MemoryUnavailable))
        .collect();
    assert_eq!(
        reported,
        vec![
            Notice::MemoryUsage(50),
            Notice::MemoryUsage(900),
            Notice::MemoryUnavailable,
            Notice::MemoryUsage(20),
            Notice::MemoryUsage(899),
        ]
    );
}

#[test]
fn the_peak_never_falls() {
    let mut run = MergeRun::new(&config(1, 1, false));
    run.step(Event::EngineStarted);
    let mut last = run.peak();
    let events = [
        Event::Sampled(Some(30)),
        Event::Found,
        Event::Loaded(1),
        Event::Appended,
        Event::Sampled(Some(10)),
        Event::Sampled(None),
        Event::Saved,
        Event::Sampled(Some(31)),
        Event::Measured(5),
    ];
    let mut peaks = Vec::new();
    for event in events {
        run.step(event);
        assert!(run.peak() >= last);
        last = run.peak();
        peaks.push(last);
    }
    assert_eq!(peaks, vec![30, 30, 30, 30, 30, 30, 30, 31, 31]);
}

#[test]
fn a_sample_that_was_not_asked_for_is_not_counted() {
    let mut run = MergeRun::new(&config(1, 1, false));
    let turn = run.step(Event::Sampled(Some(1000)));
    assert_eq!(turn.action, Action::StartEngine);
    assert!(turn.notices.is_empty());
    assert_eq!(run.peak(), 0);
}

#[test]
fn an_event_out_of_turn_changes_nothing() {
    let mut run = MergeRun::new(&config(1, 2, false));
    run.step(Event::EngineStarted);
    run.step(Event::Sampled(None));
    for event in [
        Event::EngineStarted,
        Event::Loaded(3),
        Event::Appended,
        Event::Saved,
        Event::Measured(1),
        Event::Sampled(Some(8)),
        Event::AppendFailed,
    ] {
        let turn = run.step(event);
        assert!(turn.notices.is_empty());
        assert_eq!(turn.action, Action::Probe(1));
        assert_eq!(run.stage(), Stage::Probing);
        assert_eq!(run.peak(), 0);
        assert!(run.merged().is_empty());
    }
}

#[test]
fn an_engine_that_does_not_start_ends_the_run() {
    let mut run = MergeRun::new(&config(1, 2, false));
    let turn = run.step(Event::EngineFailed);
    assert_eq!(turn.action, Action::Abort(ErrorKind::EngineInit));
    assert_eq!(run.stage(), Stage::Failed(ErrorKind::EngineInit));
    let turn = run.step(Event::EngineStarted);
    assert_eq!(turn.action, Action::Abort(ErrorKind::EngineInit));
}

#[test]
fn a_failed_watermark_ends_the_run() {
    let mut run = MergeRun::new(&config(1, 2, true));
    run.step(Event::EngineStarted);
    run.step(Event::Sampled(None));
    run.step(Event::Found);
    run.step(Event::Loaded(2));
    let turn = run.step(Event::WatermarkFailed);
    assert_eq!(turn.action, Action::Abort(ErrorKind::Watermark));
    assert!(run.merged().is_empty());
}

#[test]
fn a_failed_append_ends_the_run_and_keeps_what_was_merged() {
    let mut run = MergeRun::new(&config(1, 2, false));
    run.step(Event::EngineStarted);
    run.step(Event::Sampled(None));
    run.step(Event::Found);
    run.step(Event::Loaded(2));
    run.step(Event::Appended);
    run.step(Event::Sampled(None));
    run.step(Event::Found);
    run.step(Event::Loaded(1));
    let turn = run.step(Event::AppendFailed);
    assert_eq!(turn.action, Action::Abort(ErrorKind::Append));
    assert_eq!(run.merged(), &vec![MergedDocument { index: 1, pages: 2 }]);
}

#[test]
fn a_failed_save_ends_the_run() {
    let mut run = MergeRun::new(&config(1, 0, false));
    run.step(Event::EngineStarted);
    run.step(Event::Sampled(None));
    run.step(Event::Sampled(None));
    let turn = run.step(Event::SaveFailed);
    assert_eq!(turn.action, Action::Abort(ErrorKind::Save));
}

#[test]
fn a_file_whose_size_cannot_be_read_ends_the_run() {
    let mut run = MergeRun::new(&config(1, 0, false));
    run.step(Event::EngineStarted);
    run.step(Event::Sampled(None));
    run.step(Event::Sampled(None));
    run.step(Event::Saved);
    run.step(Event::Sampled(None));
    let turn = run.step(Event::MeasureFailed);
    assert_eq!(turn.action, Action::Abort(ErrorKind::Stat));
}

#[test]
fn a_file_that_does_not_load_is_left_out_and_the_run_goes_on() {
    let mut run = MergeRun::new(&config(1, 2, false));
    run.step(Event::EngineStarted);
    run.step(Event::Sampled(None));
    run.step(Event::Found);
    let turn = run.step(Event::LoadFailed);
    assert_eq!(turn.notices, vec![Notice::ImportFailed(1)]);
    assert_eq!(turn.action, Action::Probe(2));
    assert!(run.merged().is_empty());
}

#[test]
fn indices_run_past_the_largest_32_bit_number() {
    let args = config(u32::MAX, 2, false);
    let (run, notices, action) = play(&args, &[(4_294_967_296, File::Valid(1))], &[], 3);
    assert_eq!(action, Action::Report(3));
    assert_eq!(skipped(&notices), vec![4_294_967_295]);
    assert_eq!(run.merged(), &vec![MergedDocument { index: 4_294_967_296, pages: 1 }]);
}

#[test]
fn two_runs_over_the_same_input_merge_the_same() {
    let args = config(1, 5, false);
    let files = [(1, File::Valid(2)), (2, File::Broken), (4, File::Valid(7))];
    let (first, first_notices, _) = play(&args, &files, &[Some(1)], 10);
    let (second, second_notices, _) = play(&args, &files, &[Some(1)], 10);
    assert_eq!(first.pages(), second.pages());
    assert_eq!(first_notices, second_notices);
}

#[test]
fn sampling_through_the_run_takes_a_real_sample() {
    let mut run = MergeRun::new(&config(1, 0, false));
    run.step(Event::EngineStarted);
    let (sample, turn) = run.sample_memory();
    assert_eq!(turn.action, Action::SampleMemory);
    assert_eq!(run.stage(), Stage::FinalSample);
    match sample {
        Some(bytes) => {
            assert_eq!(run.peak(), bytes);
            assert_eq!(turn.notices, vec![Notice::MemoryUsage(bytes), Notice::Creating]);
        }
        None => {
            assert_eq!(run.peak(), 0);
            assert_eq!(turn.notices, vec![Notice::MemoryUnavailable, Notice::Creating]);
        }
    }
}

#[test]
fn a_run_ends_after_five_answers_for_each_index_and_six_besides() {
    let mut run = MergeRun::new(&config(1, 3, true));
    let mut answers = 0;
    let mut action = run.pending();
    loop {
        let event = match action {
            Action::StartEngine => Event::EngineStarted,
            Action::SampleMemory => Event::Sampled(None),
            Action::Probe(_) => Event::Found,
            Action::Load(_) => Event::Loaded(1),
            Action::Watermark => Event::Watermarked,
            Action::Append => Event::Appended,
            Action::Save => Event::Saved,
            Action::Measure => Event::Measured(0),
            Action::Report(_) | Action::Abort(_) => break,
        };
        action = run.step(event).action;
        answers += 1;
        assert!(answers <= 5 * 3 + 6);
    }
    assert_eq!(answers, 5 * 3 + 6);
    assert_eq!(action, Action::Report(0));
}

#[test]
fn a_finished_run_took_one_sample_for_each_document_and_three_more() {
    let args = config(1, 4, true);
    let files = [(1, File::Valid(2)), (2, File::Broken), (4, File::Valid(1))];
    let (run, notices, action) = play(&args, &files, &[], 5);
    assert_eq!(action, Action::Report(5));
    let samples = notices
        .iter()
        .filter(|n| matches!(n, Notice::MemoryUsage(_) | Notice::MemoryUnavailable))
        .count();
    assert_eq!(samples, run.merged().len() + 3);
    assert_eq!(samples, 5);
}

#[test]
fn a_run_that_finds_nothing_tells_of_no_file() {
    let args = config(20, 3, true);
    let (_, notices, _) = play(&args, &[], &[Some(1)], 0);
    assert_eq!(
        notices,
        vec![
            Notice::Merging(3),
            Notice::MemoryUsage(1),
            Notice::Skipped(20),
            Notice::Skipped(21),
            Notice::Skipped(22),
            Notice::Creating,
            Notice::MemoryUnavailable,
            Notice::MemoryUnavailable,
        ]
    );
}
