//! What the merged document holds: which source documents went into it, and
//! from them which pages in which order.

use vstd::prelude::*;
use crate::text::page_label;
use crate::text::page_label_text;

verus! {

/// One source document whose pages were appended to the output.
#[derive(Clone, Copy, Debug, PartialEq, Eq, Structural)]
pub struct MergedDocument {
    /// The index the document was found under.
    pub index: u64,
    /// How many pages it had when it was loaded.
    pub pages: u16,
}

/// One page of the output, named by where it came from.
#[derive(Clone, Copy, Debug, PartialEq, Eq, Structural)]
pub struct PageRef {
    /// The index of the source document.
    pub source: u64,
    /// The zero-based position of the page inside its source document.
    pub position: u16,
}

impl PageRef {
    /// The label that the page carries where pages are watermarked: it goes
    /// by the position of the page in its own document.
    pub open spec fn label_text(self) -> Seq<char> {
        page_label_text(self.position as nat)
    }

    /// The label that the page carries where pages are watermarked.
    pub fn label(&self) -> (label: String)
        ensures
            label@ == self.label_text(),
    {
        page_label(self.position)
    }
}

/// The pages one document contributes, in its own order.
pub open spec fn document_pages(document: MergedDocument) -> Seq<PageRef> {
    Seq::new(
        document.pages as nat,
        |j: int| PageRef { source: document.index, position: j as u16 },
    )
}

/// The pages of the output: those of each merged document, in the order the
/// documents were merged.
pub open spec fn page_sequence(log: Seq<MergedDocument>) -> Seq<PageRef>
    decreases log.len(),
{
    if log.len() == 0 {
        Seq::empty()
    } else {
        page_sequence(log.drop_last()) + document_pages(log.last())
    }
}

/// The sum of the page counts of the merged documents.
pub open spec fn total_pages(log: Seq<MergedDocument>) -> nat
    decreases log.len(),
{
    if log.len() == 0 {
        0
    } else {
        total_pages(log.drop_last()) + log.last().pages as nat
    }
}

/// The indices of a log rise strictly from each document to the next.
pub open spec fn ascending(log: Seq<MergedDocument>) -> bool {
    forall|i: int, j: int| 0 <= i < j < log.len() ==> log[i].index < log[j].index
}

/// One page comes before another in reading order: from a document with a
/// lower index, or earlier in the same document.
pub open spec fn precedes(a: PageRef, b: PageRef) -> bool {
    a.source < b.source || (a.source == b.source && a.position < b.position)
}

/// The output has as many pages as the merged documents had together.
pub proof fn lemma_page_total(log: Seq<MergedDocument>)
    ensures
        page_sequence(log).len() == total_pages(log),
    decreases log.len(),
{
    if log.len() > 0 {
        lemma_page_total(log.drop_last());
    }
}

/// Every page of the output comes from a merged document and lies inside it.
pub proof fn lemma_pages_come_from_log(log: Seq<MergedDocument>, q: int)
    requires
        0 <= q < page_sequence(log).len(),
    ensures
        exists|d: int|
            0 <= d < log.len() && (#[trigger] log[d]).index == page_sequence(log)[q].source
                && page_sequence(log)[q].position < log[d].pages,
    decreases log.len(),
{
    let front = log.drop_last();
    if q < page_sequence(front).len() {
        lemma_pages_come_from_log(front, q);
        let d = choose|d: int|
            0 <= d < front.len() && (#[trigger] front[d]).index == page_sequence(front)[q].source
                && page_sequence(front)[q].position < front[d].pages;
        assert(log[d] == front[d]);
    } else {
        assert(log[log.len() - 1] == log.last());
    }
}

/// Where the indices of the log ascend, the pages of the output stand in
/// reading order: by index, and inside one document by position.
pub proof fn lemma_pages_in_order(log: Seq<MergedDocument>, p: int, q: int)
    requires
        ascending(log),
        0 <= p < q < page_sequence(log).len(),
    ensures
        precedes(page_sequence(log)[p], page_sequence(log)[q]),
    decreases log.len(),
{
    let front = log.drop_last();
    let split = page_sequence(front).len();
    assert(ascending(front)) by {
        assert forall|i: int, j: int| 0 <= i < j < front.len() implies front[i].index
            < front[j].index by {
            assert(front[i] == log[i] && front[j] == log[j]);
        }
    }
    if q < split {
        lemma_pages_in_order(front, p, q);
    } else if p < split {
        lemma_pages_come_from_log(front, p);
        let d = choose|d: int|
            0 <= d < front.len() && (#[trigger] front[d]).index == page_sequence(front)[p].source
                && page_sequence(front)[p].position < front[d].pages;
        assert(front[d] == log[d]);
        assert(log[d].index < log[log.len() - 1].index);
    }
}

/// A document without pages adds nothing to the output.
pub proof fn lemma_empty_document_adds_nothing(before: Seq<MergedDocument>, document: MergedDocument)
    requires
        document.pages == 0,
    ensures
        page_sequence(before.push(document)) == page_sequence(before),
{
    assert(before.push(document).drop_last() =~= before);
    assert(page_sequence(before.push(document)) =~= page_sequence(before));
}

/// Numbering starts anew with every document: the pages that a document adds
/// to the output carry the positions 0, 1, 2, ... of that document alone,
/// and so the labels `Page 1`, `Page 2`, ..., whatever was merged before it.
pub proof fn lemma_numbering_restarts(before: Seq<MergedDocument>, document: MergedDocument, j: int)
    requires
        0 <= j < document.pages,
    ensures
        page_sequence(before.push(document)).len() == total_pages(before) + document.pages,
        page_sequence(before.push(document))[total_pages(before) + j] == (PageRef {
            source: document.index,
            position: j as u16,
        }),
        page_sequence(before.push(document))[total_pages(before) + j].label_text()
            == page_label_text(j as nat),
{
    let log = before.push(document);
    assert(log.drop_last() =~= before);
    lemma_page_total(before);
}

/// Lists the pages of the output for a log of merged documents.
pub fn output_pages(log: &Vec<MergedDocument>) -> (pages: Vec<PageRef>)
    ensures
        pages@ == page_sequence(log@),
{
    let mut pages: Vec<PageRef> = Vec::new();
    let mut d: usize = 0;
    while d < log.len()
        invariant
            d <= log.len(),
            pages@ == page_sequence(log@.take(d as int)),
        decreases log.len() - d,
    {
        let document = log[d];
        let ghost front = pages@;
        let mut j: u16 = 0;
        while j < document.pages
            invariant
                j <= document.pages,
                pages@ == front + document_pages(document).take(j as int),
            decreases document.pages - j,
        {
            pages.push(PageRef { source: document.index, position: j });
            assert(document_pages(document).take(j + 1) =~= document_pages(document).take(
                j as int,
            ).push(PageRef { source: document.index, position: j }));
            j = j + 1;
        }
        proof {
            assert(document_pages(document).take(j as int) =~= document_pages(document));
            assert(log@.take(d + 1).drop_last() =~= log@.take(d as int));
            assert(log@.take(d + 1).last() == document);
        }
        d = d + 1;
    }
    assert(log@.take(d as int) =~= log@);
    pages
}

} // verus!
