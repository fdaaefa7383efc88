//! Planning and bookkeeping for merging a numbered range of PDF files into one
//! document: which file comes next, what is printed, what ends up in the
//! output, and how much memory the run peaked at.

pub mod config;
pub mod console;
pub mod engine;
pub mod error;
pub mod laws;
pub mod memory;
pub mod pages;
pub mod run;
pub mod summary;
pub mod text;
