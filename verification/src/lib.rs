//! Verified core of a daily-wallpaper fetcher.
//!
//! The library holds the decisions the tool makes: which command is
//! accepted, which listing entry is selected and how its download URL is
//! resolved, how the saved file's name is derived from that URL's query
//! string, where the file goes, and which external command (if any) sets
//! the background. All I/O (HTTP, filesystem, process spawning) lives
//! outside the library and hands it plain values.

use vstd::prelude::*;

pub mod cli;
pub mod errors;
pub mod filename;
pub mod listing;
pub mod setter;
pub mod storage;

verus! {

/// The fixed origin that relative wallpaper paths are resolved against.
pub open spec fn base_url() -> Seq<char> {
    "https://www.bing.com"@
}

/// Executable copy of the fixed base origin.
pub fn base_url_str() -> (r: &'static str)
    ensures
        r@ == base_url(),
{
    "https://www.bing.com"
}

} // verus!
