//! The time at which a cache was seeded, as written into its marker file.
use vstd::prelude::*;

verus! {

/// What a marker file holds once a cache has been seeded at `timestamp`.
pub open spec fn marker_contents_spec(timestamp: Seq<char>) -> Seq<char> {
    "SEEDED_AT="@ + timestamp + "\n"@
}

/// The text of a marker file for a cache seeded at `timestamp`: `SEEDED_AT=<timestamp>` and
/// a newline.
pub fn marker_contents(timestamp: &str) -> (contents: String)
    ensures
        contents@ == marker_contents_spec(timestamp@),
{
    let mut contents = "SEEDED_AT=".to_owned();
    contents.append(timestamp);
    contents.append("\n");
    contents
}

} // verus!
