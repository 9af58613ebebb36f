//! Adaptive-streaming download engine: manifest models, rendition selection,
//! segment planning, fetch scheduling and resume state.

use vstd::prelude::*;

pub mod common;
pub mod content_type;
pub mod dash;
pub mod downloader;
pub mod duration;
pub mod encoding;
pub mod error;
pub mod external;
pub mod fetch;
pub mod hls;
pub mod merge;
pub mod orchestrator;
pub mod planner;
pub mod quality;
pub mod registry;
pub mod select;
pub mod seqs;
pub mod state;
pub mod text;
pub mod tools;
pub mod utils;

verus! {

/// The version of the library.
pub fn version() -> (v: &'static str)
    ensures
        v@ == "0.1.0"@,
{
    "0.1.0"
}

/// The version of the library as an owned string, for interfaces that
/// hand strings over.
pub fn get_version() -> (v: String)
    ensures
        v@ == "0.1.0"@,
{
    version().to_owned()
}

} // verus!
