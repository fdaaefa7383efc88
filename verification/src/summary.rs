//! The summary printed at the end of a run: a one-row table and two lines.

use vstd::prelude::*;
use vstd::string::*;
use crate::config::Args;
use crate::text::decimal;
use crate::text::decimal_string;
use crate::text::elapsed_line;
use crate::text::elapsed_text;
use crate::text::target_line;
use crate::text::target_text;
use crate::text::texts;

verus! {

/// The width the summary table is laid out for, in columns of text.
pub const TABLE_WIDTH: u16 = 100;

/// The column of the summary table whose cells are set flush right.
pub const RIGHT_ALIGNED_COLUMN: usize = 2;

/// The headings of the summary table.
pub open spec fn header_texts() -> Seq<Seq<char>> {
    seq![
        "Source"@,
        "Start"@,
        "Count"@,
        "Time Elapsed (ms)"@,
        "Max Memory"@,
        "Target File Size"@,
    ]
}

/// The row of the summary table for a run with the given settings, given
/// as text how long it took, how much memory it peaked at and how large
/// the written file is.
pub open spec fn row_texts(
    source_directory: Seq<char>,
    start: u32,
    count: u32,
    elapsed: Seq<char>,
    peak: Seq<char>,
    size: Seq<char>,
) -> Seq<Seq<char>> {
    seq![source_directory, decimal(start as nat), decimal(count as nat), elapsed, peak, size]
}

/// The lines of the summary, given the duration as text and the table.
pub open spec fn summary_texts(elapsed: Seq<char>, table: Seq<char>, target: Seq<char>) -> Seq<
    Seq<char>,
> {
    seq![elapsed_text(elapsed), table, target_text(target)]
}

/// What `comfy_table` draws for a table of one header row and one content
/// row, in its full UTF-8 style with round corners, with columns arranged
/// dynamically within `width` and the cells of one column set flush right.
pub uninterp spec fn table_text(
    header: Seq<Seq<char>>,
    row: Seq<Seq<char>>,
    width: u16,
    right_aligned: usize,
) -> Seq<char>;

/// What the `Debug` form of a `std::time::Duration` of so many whole seconds
/// and so many nanoseconds beyond them reads.
pub uninterp spec fn duration_text(secs: u64, nanos: u32) -> Seq<char>;

/// Builds a `comfy_table::Table` with the preset `UTF8_FULL`, the modifier
/// `UTF8_ROUND_CORNERS`, the arrangement `Dynamic`, the given width, header
/// and single row, sets the alignment of one column to the right, and
/// returns what `Table`'s `Display` writes. The cells carry no styling and
/// the width is set, so the text depends on these arguments alone; the
/// contract only gives that text a name. The column must exist, as
/// `column_mut` is unwrapped.
#[verifier::external_body]
fn draw_table(header: &Vec<String>, row: &Vec<String>, width: u16, right_aligned: usize) -> (text:
    String)
    requires
        header.len() == row.len(),
        right_aligned < row.len(),
    ensures
        text@ == table_text(texts(header@), texts(row@), width, right_aligned),
{
    let mut table = comfy_table::Table::new();
    table
        .load_preset(comfy_table::presets::UTF8_FULL)
        .apply_modifier(comfy_table::modifiers::UTF8_ROUND_CORNERS)
        .set_content_arrangement(comfy_table::ContentArrangement::Dynamic)
        .set_width(width)
        .set_header(header.clone())
        .add_row(row.clone());
    table.column_mut(right_aligned).unwrap().set_cell_alignment(comfy_table::CellAlignment::Right);
    table.to_string()
}

/// Formats `std::time::Duration::new(secs, nanos)` with `{:?}`. With less
/// than a second's worth of nanoseconds `new` carries nothing over and
/// cannot overflow. The contract only gives the text a name.
#[verifier::external_body]
fn format_duration(secs: u64, nanos: u32) -> (text: String)
    requires
        nanos < 1_000_000_000,
    ensures
        text@ == duration_text(secs, nanos),
{
    format!("{:?}", std::time::Duration::new(secs, nanos))
}

/// A duration of `secs` whole seconds and `nanos` nanoseconds as text, in
/// the unit that suits its size.
pub fn duration_string(secs: u64, nanos: u32) -> (text: String)
    requires
        nanos < 1_000_000_000,
    ensures
        text@ == duration_text(secs, nanos),
{
    format_duration(secs, nanos)
}

/// The headings of the summary table.
pub fn summary_header() -> (header: Vec<String>)
    ensures
        texts(header@) == header_texts(),
{
    let mut header: Vec<String> = Vec::new();
    header.push(String::from_str("Source"));
    header.push(String::from_str("Start"));
    header.push(String::from_str("Count"));
    header.push(String::from_str("Time Elapsed (ms)"));
    header.push(String::from_str("Max Memory"));
    header.push(String::from_str("Target File Size"));
    assert(texts(header@) =~= header_texts());
    header
}

/// The row of the summary table.
pub fn summary_row(config: &Args, elapsed: &str, peak: &str, size: &str) -> (row: Vec<String>)
    ensures
        texts(row@) == row_texts(
            config.source_directory@,
            config.start,
            config.count,
            elapsed@,
            peak@,
            size@,
        ),
{
    let mut row: Vec<String> = Vec::new();
    row.push(String::from_str(config.source_directory.as_str()));
    row.push(decimal_string(config.start as u64));
    row.push(decimal_string(config.count as u64));
    row.push(String::from_str(elapsed));
    row.push(String::from_str(peak));
    row.push(String::from_str(size));
    assert(texts(row@) =~= row_texts(
        config.source_directory@,
        config.start,
        config.count,
        elapsed@,
        peak@,
        size@,
    ));
    row
}

/// The summary table of a run, drawn.
pub fn summary_table(config: &Args, elapsed: &str, peak: &str, size: &str) -> (table: String)
    ensures
        table@ == table_text(
            header_texts(),
            row_texts(
                config.source_directory@,
                config.start,
                config.count,
                elapsed@,
                peak@,
                size@,
            ),
            TABLE_WIDTH,
            RIGHT_ALIGNED_COLUMN,
        ),
{
    let header = summary_header();
    let row = summary_row(config, elapsed, peak, size);
    assert(header@.len() == texts(header@).len());
    assert(row@.len() == texts(row@).len());
    draw_table(&header, &row, TABLE_WIDTH, RIGHT_ALIGNED_COLUMN)
}

/// Puts the summary together from its parts: the line with the duration,
/// the drawn table, and the line that restates the target.
pub fn assemble_summary(elapsed: &str, table: String, target: &str) -> (lines: Vec<String>)
    ensures
        texts(lines@) == summary_texts(elapsed@, table@, target@),
{
    let mut lines: Vec<String> = Vec::new();
    lines.push(elapsed_line(elapsed));
    lines.push(table);
    lines.push(target_line(target));
    assert(texts(lines@) =~= summary_texts(elapsed@, table@, target@));
    lines
}

/// The summary of a finished run, line by line: how long it took, the
/// table, and where the output lies. The duration is given in whole seconds
/// and nanoseconds beyond them; the peak memory and the size of the written
/// file are given as text in readable units.
pub fn summary_lines(config: &Args, secs: u64, nanos: u32, peak: &str, size: &str) -> (lines: Vec<
    String,
>)
    requires
        nanos < 1_000_000_000,
    ensures
        texts(lines@) == summary_texts(
            duration_text(secs, nanos),
            table_text(
                header_texts(),
                row_texts(
                    config.source_directory@,
                    config.start,
                    config.count,
                    duration_text(secs, nanos),
                    peak@,
                    size@,
                ),
                TABLE_WIDTH,
                RIGHT_ALIGNED_COLUMN,
            ),
            config.target@,
        ),
{
    let elapsed = duration_string(secs, nanos);
    let table = summary_table(config, elapsed.as_str(), peak, size);
    assemble_summary(elapsed.as_str(), table, config.target.as_str())
}

} // verus!
