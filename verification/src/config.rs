//! What a run is asked to do.

use vstd::prelude::*;
use vstd::string::*;

verus! {

/// The first index tried when none is given.
pub const DEFAULT_START: u32 = 7000000;

/// The number of indices tried when none is given.
pub const DEFAULT_COUNT: u32 = 100;

/// The settings of one run. They are fixed when the run starts.
#[derive(Clone, Debug)]
pub struct Args {
    /// The index of the first document to try.
    pub start: u32,
    /// The number of consecutive indices to try.
    pub count: u32,
    /// Whether every imported page gets a page-number label.
    pub watermark: bool,
    /// The directory that holds the source files, one per index.
    pub source_directory: String,
    /// The path the merged document is written to.
    pub target: String,
}

impl Default for Args {
    /// Seven million as the first index, a hundred indices, no watermark,
    /// the current directory as the source and `merged.pdf` as the target.
    fn default() -> (args: Args)
        ensures
            args.start == DEFAULT_START,
            args.count == DEFAULT_COUNT,
            !args.watermark,
            args.source_directory@ == "."@,
            args.target@ == "merged.pdf"@,
    {
        Args {
            start: DEFAULT_START,
            count: DEFAULT_COUNT,
            watermark: false,
            source_directory: String::from_str("."),
            target: String::from_str("merged.pdf"),
        }
    }
}

} // verus!
