//! The one step of a run that works on documents held in memory: appending
//! the pages of a loaded document to the output.

use vstd::prelude::*;
use vstd::string::*;
use pdfium_render::prelude::PdfDocument;
use pdfium_render::prelude::PdfiumError;
use crate::error::ErrorKind;
use crate::error::MergeError;
use crate::run::Event;
use crate::run::MergeRun;
use crate::run::Turn;

verus! {

/// The most pages the engine counts in one document.
pub const MAX_PAGES: u16 = 65535;

/// `pdfium_render`'s handle on a document held by the engine. Of what such
/// a document holds only the number of its pages is spoken of.
#[verifier::external_type_specification]
#[verifier::external_body]
pub struct ExPdfDocument<'a>(PdfDocument<'a>);

/// `pdfium_render`'s error value. Nothing is known of it but the message
/// it can be turned into.
#[verifier::external_type_specification]
#[verifier::external_body]
pub struct ExPdfiumError(PdfiumError);

/// The number of pages of a document, as `PdfPages::len` reports it.
pub uninterp spec fn page_count(document: &PdfDocument<'_>) -> nat;

/// What `to_string` makes of a `PdfiumError`: its `Debug` form, laid out
/// over several lines where it has parts.
pub uninterp spec fn error_text(error: &PdfiumError) -> Seq<char>;

/// What the error says when the output cannot take the pages of one more
/// document.
pub open spec fn too_many_pages_text() -> Seq<char> {
    "the merged document would hold more than 65535 pages"@
}

/// Calls `PdfPages::len` on the pages of a document. The contract only
/// gives the number a name.
#[verifier::external_body]
fn count_pages(document: &PdfDocument<'_>) -> (pages: u16)
    ensures
        pages == page_count(document),
{
    document.pages().len()
}

/// Calls `PdfPages::append` on the pages of `target` with `source`, which
/// copies every page of `source` to the end of `target`. Where the engine
/// reports success, `target` has the pages of `source` more; where it
/// reports an error, nothing is claimed of `target`. After a success the
/// crate adds the number of copied pages to a 16-bit page index that it
/// keeps for `target`, so the two page counts together must fit that
/// index, and `source` must have a page to copy.
#[verifier::external_body]
fn append_pages(target: &mut PdfDocument<'_>, source: &PdfDocument<'_>) -> (result: Result<
    (),
    PdfiumError,
>)
    requires
        page_count(source) > 0,
        page_count(old(target)) + page_count(source) <= MAX_PAGES,
    ensures
        result.is_ok() ==> page_count(final(target)) == page_count(old(target)) + page_count(
            source,
        ),
{
    target.pages_mut().append(source)
}

/// Calls `to_string` on a `PdfiumError`, which writes out its `Debug` form.
/// The contract only gives the text a name.
#[verifier::external_body]
fn error_message(error: &PdfiumError) -> (message: String)
    ensures
        message@ == error_text(error),
{
    error.to_string()
}

/// Tells the run what came of an append that the engine was asked for:
/// that the pages were appended, or that the append failed. A failure
/// comes back as an error of the kind `Append` that carries the engine's
/// message.
pub fn finish_append(run: &mut MergeRun, outcome: Result<(), PdfiumError>) -> (result: Result<
    Turn,
    MergeError,
>)
    requires
        old(run).wf(),
    ensures
        final(run).wf(),
        match outcome {
            Ok(_) => {
                &&& result.is_ok()
                &&& final(run)@ == old(run)@.next(Event::Appended).state
                &&& result->Ok_0.notices@ == old(run)@.next(Event::Appended).notices
                &&& result->Ok_0.action == old(run)@.next(Event::Appended).action
            },
            Err(engine_error) => {
                &&& result.is_err()
                &&& final(run)@ == old(run)@.next(Event::AppendFailed).state
                &&& result->Err_0.kind == ErrorKind::Append
                &&& result->Err_0.message@ == error_text(&engine_error)
            },
        },
{
    match outcome {
        Ok(()) => Ok(run.step(Event::Appended)),
        Err(engine_error) => {
            let _ = run.step(Event::AppendFailed);
            Err(MergeError::new(ErrorKind::Append, error_message(&engine_error)))
        },
    }
}

/// Appends the pages of the loaded document to the output and tells the
/// run how it went.
///
/// Unless the run waits for an append, nothing is appended and the run
/// stays as it is. Where it does wait for one:
/// - A document without pages is not handed to the engine: appending it
///   changes nothing, and the run is told that it was appended.
/// - A document whose pages would take the output past the most pages the
///   engine counts is not handed to the engine either: the output stays as
///   it is, the run is told that the append failed, and the error says so.
/// - Any other document is handed to the engine once. Where the engine
///   succeeds, the output has the pages of the document more and the run
///   is told that it was appended. Where it fails, the run is told so and
///   the error carries the engine's message.
/// Every error is of the kind `Append`.
pub fn append_document(
    run: &mut MergeRun,
    target: &mut PdfDocument<'_>,
    source: &PdfDocument<'_>,
) -> (result: Result<Turn, MergeError>)
    requires
        old(run).wf(),
    ensures
        final(run).wf(),
        !(old(run)@.stage is Appending) || page_count(source) == 0 ==> {
            &&& result.is_ok()
            &&& *final(target) == *old(target)
        },
        (old(run)@.stage is Appending) && page_count(source) > 0 && page_count(old(target))
            + page_count(source) > MAX_PAGES ==> {
            &&& result.is_err()
            &&& *final(target) == *old(target)
        },
        match result {
            Ok(turn) => {
                &&& final(run)@ == old(run)@.next(Event::Appended).state
                &&& turn.notices@ == old(run)@.next(Event::Appended).notices
                &&& turn.action == old(run)@.next(Event::Appended).action
                &&& (old(run)@.stage is Appending) ==> page_count(final(target)) == page_count(
                    old(target),
                ) + page_count(source)
            },
            Err(error) => {
                &&& error.kind == ErrorKind::Append
                &&& final(run)@ == old(run)@.next(Event::AppendFailed).state
                &&& (old(run)@.stage is Appending)
                &&& page_count(source) > 0
                &&& if page_count(old(target)) + page_count(source) > MAX_PAGES {
                    error.message@ == too_many_pages_text()
                } else {
                    exists|engine_error: PdfiumError|
                        error.message@ == #[trigger] error_text(&engine_error)
                }
            },
        },
{
    if !run.awaits_append() {
        return Ok(run.step(Event::Appended));
    }
    let held = count_pages(target);
    let more = count_pages(source);
    if more == 0 {
        Ok(run.step(Event::Appended))
    } else if more > MAX_PAGES - held {
        let _ = run.step(Event::AppendFailed);
        Err(
            MergeError::new(
                ErrorKind::Append,
                String::from_str("the merged document would hold more than 65535 pages"),
            ),
        )
    } else {
        let outcome = append_pages(target, source);
        finish_append(run, outcome)
    }
}

} // verus!
