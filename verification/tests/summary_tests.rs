use comfy_table::modifiers::UTF8_ROUND_CORNERS;
use comfy_table::presets::UTF8_FULL;
use comfy_table::{Cell, CellAlignment, ContentArrangement, Table};
use pdf_merge::config::Args;
use pdf_merge::summary::{
    assemble_summary, duration_string, summary_header, summary_lines, summary_row, summary_table,
    RIGHT_ALIGNED_COLUMN, TABLE_WIDTH,
};
use std::time::Duration;

fn config() -> Args {
    Args {
        start: 7000000,
        count: 100,
        watermark: false,
        source_directory: String::from("./in"),
        target: String::from("merged.pdf"),
    }
}

fn table_drawn_directly(args: &Args, elapsed: &str, peak: &str, size: &str) -> String {
    let mut table = Table::new();
    table
        .load_preset(UTF8_FULL)
        .apply_modifier(UTF8_ROUND_CORNERS)
        .set_content_arrangement(ContentArrangement::Dynamic)
        .set_width(100)
        .set_header(vec![
            "Source",
            "Start",
            "Count",
            "Time Elapsed (ms)",
            "Max Memory",
            "Target File Size",
        ])
        .add_row(vec![
            Cell::new(args.source_directory.clone()),
            Cell::new(args.start),
            Cell::new(args.count),
            Cell::new(elapsed),
            Cell::new(peak),
            Cell::new(size),
        ]);
    let column = table.column_mut(2).unwrap();
    column.set_cell_alignment(CellAlignment::Right);
    table.to_string()
}

#[test]
fn the_table_is_a_hundred_wide_with_the_third_column_flush_right() {
    assert_eq!(TABLE_WIDTH, 100);
    assert_eq!(RIGHT_ALIGNED_COLUMN, 2);
}

#[test]
fn the_header_names_six_columns() {
    assert_eq!(
        summary_header(),
        vec!["Source", "Start", "Count", "Time Elapsed (ms)", "Max Memory", "Target File Size"]
    );
}

#[test]
fn the_row_holds_the_settings_and_the_measurements() {
    assert_eq!(
        summary_row(&config(), "1.5s", "20 MiB", "3 KiB"),
        vec!["./in", "7000000", "100", "1.5s", "20 MiB", "3 KiB"]
    );
}

#[test]
fn durations_read_as_their_debug_form() {
    assert_eq!(duration_string(1, 500_000_000), "1.5s");
    assert_eq!(duration_string(0, 1_000_000), "1ms");
    assert_eq!(duration_string(0, 0), "0ns");
    assert_eq!(duration_string(0, 2_500), "2.5µs");
    assert_eq!(duration_string(3, 0), format!("{:?}", Duration::new(3, 0)));
    assert_eq!(
        duration_string(u64::MAX, 999_999_999),
        format!("{:?}", Duration::new(u64::MAX, 999_999_999))
    );
}

#[test]
fn the_table_is_what_the_table_crate_draws() {
    let args = config();
    let drawn = summary_table(&args, "1.5s", "20 MiB", "3 KiB");
    assert_eq!(drawn, table_drawn_directly(&args, "1.5s", "20 MiB", "3 KiB"));
    let lines: Vec<&str> = drawn.lines().collect();
    assert_eq!(lines.len(), 5);
    assert!(lines[0].starts_with('╭') && lines[0].ends_with('╮'));
    assert!(lines[4].starts_with('╰') && lines[4].ends_with('╯'));
    assert!(lines[1].contains("Source") && lines[1].contains("Target File Size"));
    assert!(lines[3].contains("./in") && lines[3].contains("7000000"));
    assert!(lines[3].contains("   100 "));
    assert!(drawn.lines().all(|line| line.chars().count() <= 100));
}

#[test]
fn a_long_source_directory_is_wrapped_into_the_width() {
    let mut args = config();
    args.source_directory = "a/very/long/directory/name/".repeat(8);
    let drawn = summary_table(&args, "1.5s", "20 MiB", "3 KiB");
    assert_eq!(drawn, table_drawn_directly(&args, "1.5s", "20 MiB", "3 KiB"));
    assert!(drawn.lines().count() > 5);
    assert!(drawn.lines().all(|line| line.chars().count() <= 100));
}

#[test]
fn odd_cells_are_drawn_as_the_table_crate_draws_them() {
    let mut args = config();
    for directory in ["", " ", "päth/ünïcode/目录", "two\nlines", "a b c d e f g h"] {
        args.source_directory = String::from(directory);
        for (elapsed, peak, size) in [("", "", ""), ("0ns", "0 B", "0 B"), ("x".repeat(300).as_str(), "1 KiB", "")] {
            assert_eq!(
                summary_table(&args, elapsed, peak, size),
                table_drawn_directly(&args, elapsed, peak, size)
            );
        }
    }
}

#[test]
fn the_summary_is_put_together_from_its_parts() {
    assert_eq!(
        assemble_summary("2s", String::from("TABLE"), "out.pdf"),
        vec!["Time elapsed is: 2s", "TABLE", "Target File: out.pdf"]
    );
}

#[test]
fn the_summary_has_the_duration_the_table_and_the_target() {
    let args = config();
    let lines = summary_lines(&args, 2, 250_000_000, "20 MiB", "3 KiB");
    assert_eq!(lines.len(), 3);
    assert_eq!(lines[0], "Time elapsed is: 2.25s");
    assert_eq!(lines[1], table_drawn_directly(&args, "2.25s", "20 MiB", "3 KiB"));
    assert_eq!(lines[2], "Target File: merged.pdf");
}
