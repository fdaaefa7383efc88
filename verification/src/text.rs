//! Text that the merge produces: file paths, watermark labels and console lines.

use vstd::prelude::*;
use vstd::string::*;

verus! {

/// The size of the watermark label, in points.
pub const WATERMARK_FONT_SIZE: u16 = 14;

/// What each string of a list says.
pub open spec fn texts(lines: Seq<String>) -> Seq<Seq<char>> {
    Seq::new(lines.len(), |i: int| lines[i]@)
}

/// The character that stands for a single decimal digit.
pub open spec fn digit_char(d: nat) -> char {
    if d == 0 {
        '0'
    } else if d == 1 {
        '1'
    } else if d == 2 {
        '2'
    } else if d == 3 {
        '3'
    } else if d == 4 {
        '4'
    } else if d == 5 {
        '5'
    } else if d == 6 {
        '6'
    } else if d == 7 {
        '7'
    } else if d == 8 {
        '8'
    } else {
        '9'
    }
}

/// The decimal numeral of `n`: no sign, no leading zero, no separators.
pub open spec fn decimal(n: nat) -> Seq<char>
    decreases n,
{
    if n < 10 {
        seq![digit_char(n)]
    } else {
        decimal(n / 10).push(digit_char(n % 10))
    }
}

fn digit_text(d: u64) -> (s: &'static str)
    requires
        d < 10,
    ensures
        s@ == seq![digit_char(d as nat)],
{
    proof {
        reveal_strlit("0");
        reveal_strlit("1");
        reveal_strlit("2");
        reveal_strlit("3");
        reveal_strlit("4");
        reveal_strlit("5");
        reveal_strlit("6");
        reveal_strlit("7");
        reveal_strlit("8");
        reveal_strlit("9");
    }
    let s = if d == 0 {
        "0"
    } else if d == 1 {
        "1"
    } else if d == 2 {
        "2"
    } else if d == 3 {
        "3"
    } else if d == 4 {
        "4"
    } else if d == 5 {
        "5"
    } else if d == 6 {
        "6"
    } else if d == 7 {
        "7"
    } else if d == 8 {
        "8"
    } else {
        "9"
    };
    assert(s@ =~= seq![digit_char(d as nat)]);
    s
}

/// Appends the decimal numeral of `n` to `text`.
pub fn push_decimal(text: &mut String, n: u64)
    ensures
        final(text)@ == old(text)@ + decimal(n as nat),
    decreases n,
{
    if n >= 10 {
        push_decimal(text, n / 10);
    }
    text.append(digit_text(n % 10));
    assert(text@ =~= old(text)@ + decimal(n as nat));
}

/// The decimal numeral of `n` as a string.
pub fn decimal_string(n: u64) -> (text: String)
    ensures
        text@ == decimal(n as nat),
{
    let mut text = String::new();
    push_decimal(&mut text, n);
    assert(text@ =~= decimal(n as nat));
    text
}

/// Where the source file with the given index lies: the directory, a slash,
/// the index in decimal, and the extension `.pdf`.
pub open spec fn source_path_text(directory: Seq<char>, index: nat) -> Seq<char> {
    directory + "/"@ + decimal(index) + ".pdf"@
}

/// The label stamped on the page at the zero-based position `index` of its
/// own document: the word `Page` and the one-based position.
pub open spec fn page_label_text(index: nat) -> Seq<char> {
    "Page "@ + decimal(index + 1)
}

pub open spec fn merging_text(count: nat) -> Seq<char> {
    "Merging "@ + decimal(count) + " documents"@
}

pub open spec fn adding_text(path: Seq<char>) -> Seq<char> {
    "Adding "@ + path
}

pub open spec fn imported_text(path: Seq<char>) -> Seq<char> {
    "Imported document "@ + path
}

pub open spec fn import_error_text(path: Seq<char>, reason: Seq<char>) -> Seq<char> {
    "Error while importing "@ + path + ": "@ + reason
}

pub open spec fn skipping_text(path: Seq<char>) -> Seq<char> {
    "Skipping "@ + path + " as it does not exist."@
}

pub open spec fn creating_text(target: Seq<char>) -> Seq<char> {
    "Creating "@ + target
}

pub open spec fn watermarking_text(pages: nat, elapsed: Seq<char>) -> Seq<char> {
    "Watermarking "@ + decimal(pages) + " pages took: "@ + elapsed
}

pub open spec fn memory_usage_text(amount: Seq<char>) -> Seq<char> {
    "Physical memory usage: "@ + amount
}

pub open spec fn memory_unavailable_text() -> Seq<char> {
    "Couldn't get the current memory usage :("@
}

pub open spec fn elapsed_text(elapsed: Seq<char>) -> Seq<char> {
    "Time elapsed is: "@ + elapsed
}

pub open spec fn target_text(target: Seq<char>) -> Seq<char> {
    "Target File: "@ + target
}

/// The path of the source file with the given index under `directory`.
pub fn source_path(directory: &str, index: u64) -> (path: String)
    ensures
        path@ == source_path_text(directory@, index as nat),
{
    let mut path = String::from_str(directory);
    path.append("/");
    push_decimal(&mut path, index);
    path.append(".pdf");
    path
}

/// The watermark label of the page at zero-based position `index` of the
/// document it was loaded from.
pub fn page_label(index: u16) -> (label: String)
    ensures
        label@ == page_label_text(index as nat),
{
    let position: u64 = index as u64 + 1;
    let mut label = String::from_str("Page ");
    push_decimal(&mut label, position);
    label
}

/// The line that opens a run over `count` indices.
pub fn merging_line(count: u32) -> (line: String)
    ensures
        line@ == merging_text(count as nat),
{
    let mut line = String::from_str("Merging ");
    push_decimal(&mut line, count as u64);
    line.append(" documents");
    line
}

/// The line printed when a source file was found and is about to be loaded.
pub fn adding_line(path: &str) -> (line: String)
    ensures
        line@ == adding_text(path@),
{
    let mut line = String::from_str("Adding ");
    line.append(path);
    line
}

/// The line printed when a source file was loaded.
pub fn imported_line(path: &str) -> (line: String)
    ensures
        line@ == imported_text(path@),
{
    let mut line = String::from_str("Imported document ");
    line.append(path);
    line
}

/// The line printed when a source file exists but could not be loaded.
pub fn import_error_line(path: &str, reason: &str) -> (line: String)
    ensures
        line@ == import_error_text(path@, reason@),
{
    let mut line = String::from_str("Error while importing ");
    line.append(path);
    line.append(": ");
    line.append(reason);
    line
}

/// The line printed when no source file has the index.
pub fn skipping_line(path: &str) -> (line: String)
    ensures
        line@ == skipping_text(path@),
{
    let mut line = String::from_str("Skipping ");
    line.append(path);
    line.append(" as it does not exist.");
    line
}

/// The line printed before the merged document is written.
pub fn creating_line(target: &str) -> (line: String)
    ensures
        line@ == creating_text(target@),
{
    let mut line = String::from_str("Creating ");
    line.append(target);
    line
}

/// The line printed after the pages of one document were watermarked, given
/// the time it took as text.
pub fn watermarking_line(pages: u16, elapsed: &str) -> (line: String)
    ensures
        line@ == watermarking_text(pages as nat, elapsed@),
{
    let mut line = String::from_str("Watermarking ");
    push_decimal(&mut line, pages as u64);
    line.append(" pages took: ");
    line.append(elapsed);
    line
}

/// The line that reports a memory sample, given the amount in readable units.
pub fn memory_usage_line(amount: &str) -> (line: String)
    ensures
        line@ == memory_usage_text(amount@),
{
    let mut line = String::from_str("Physical memory usage: ");
    line.append(amount);
    line
}

/// The line printed when the memory in use could not be sampled.
pub fn memory_unavailable_line() -> (line: String)
    ensures
        line@ == memory_unavailable_text(),
{
    String::from_str("Couldn't get the current memory usage :(")
}

/// The line that reports the duration of the run, given the duration as text.
pub fn elapsed_line(elapsed: &str) -> (line: String)
    ensures
        line@ == elapsed_text(elapsed@),
{
    let mut line = String::from_str("Time elapsed is: ");
    line.append(elapsed);
    line
}

/// The line that restates where the merged document was written.
pub fn target_line(target: &str) -> (line: String)
    ensures
        line@ == target_text(target@),
{
    let mut line = String::from_str("Target File: ");
    line.append(target);
    line
}

} // verus!
