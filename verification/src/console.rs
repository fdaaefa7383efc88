//! The lines a run prints for each thing it has to tell.

use vstd::prelude::*;
use vstd::string::*;
use crate::config::Args;
use crate::run::Notice;
use crate::text::adding_line;
use crate::text::adding_text;
use crate::text::creating_line;
use crate::text::creating_text;
use crate::text::import_error_line;
use crate::text::import_error_text;
use crate::text::imported_line;
use crate::text::imported_text;
use crate::text::memory_unavailable_line;
use crate::text::memory_unavailable_text;
use crate::text::memory_usage_line;
use crate::text::memory_usage_text;
use crate::text::merging_line;
use crate::text::merging_text;
use crate::text::skipping_line;
use crate::text::skipping_text;
use crate::text::source_path;
use crate::text::source_path_text;
use crate::text::texts;
use crate::text::watermarking_line;
use crate::text::watermarking_text;

verus! {

/// The lines that a notice is printed as.
///
/// Three notices carry something only the caller can put into words, which
/// it hands in as `detail`: why a file could not be loaded, how long the
/// watermarking took, and the amount of memory in readable units. For the
/// other notices `detail` is not looked at. A memory sample is set off by
/// an empty line before it.
pub open spec fn notice_texts(
    source_directory: Seq<char>,
    target: Seq<char>,
    notice: Notice,
    detail: Seq<char>,
) -> Seq<Seq<char>> {
    match notice {
        Notice::Merging(count) => seq![merging_text(count as nat)],
        Notice::Adding(index) => seq![adding_text(source_path_text(source_directory, index as nat))],
        Notice::Imported(index) => seq![
            imported_text(source_path_text(source_directory, index as nat)),
        ],
        Notice::ImportFailed(index) => seq![
            import_error_text(source_path_text(source_directory, index as nat), detail),
        ],
        Notice::Skipped(index) => seq![
            skipping_text(source_path_text(source_directory, index as nat)),
        ],
        Notice::Watermarked(pages) => seq![watermarking_text(pages as nat, detail)],
        Notice::MemoryUsage(_) => seq![Seq::empty(), memory_usage_text(detail)],
        Notice::MemoryUnavailable => seq![memory_unavailable_text()],
        Notice::Creating => seq![creating_text(target)],
    }
}

/// Puts a notice into the lines to print for it.
pub fn notice_lines(config: &Args, notice: Notice, detail: &str) -> (lines: Vec<String>)
    ensures
        texts(lines@) == notice_texts(config.source_directory@, config.target@, notice, detail@),
{
    let mut lines: Vec<String> = Vec::new();
    match notice {
        Notice::Merging(count) => {
            lines.push(merging_line(count));
        },
        Notice::Adding(index) => {
            let path = source_path(config.source_directory.as_str(), index);
            lines.push(adding_line(path.as_str()));
        },
        Notice::Imported(index) => {
            let path = source_path(config.source_directory.as_str(), index);
            lines.push(imported_line(path.as_str()));
        },
        Notice::ImportFailed(index) => {
            let path = source_path(config.source_directory.as_str(), index);
            lines.push(import_error_line(path.as_str(), detail));
        },
        Notice::Skipped(index) => {
            let path = source_path(config.source_directory.as_str(), index);
            lines.push(skipping_line(path.as_str()));
        },
        Notice::Watermarked(pages) => {
            lines.push(watermarking_line(pages, detail));
        },
        Notice::MemoryUsage(_) => {
            lines.push(String::new());
            lines.push(memory_usage_line(detail));
        },
        Notice::MemoryUnavailable => {
            lines.push(memory_unavailable_line());
        },
        Notice::Creating => {
            lines.push(creating_line(config.target.as_str()));
        },
    }
    assert(texts(lines@) =~= notice_texts(
        config.source_directory@,
        config.target@,
        notice,
        detail@,
    ));
    lines
}

} // verus!
