//! Issue printers report issues by "printing" them.

use crate::resolver::resolve::ResolutionError;
use vstd::prelude::*;
use vstd::string::*;

verus! {

/// A printer of the issues of a resolution, for the operator's error
/// stream.
pub struct Stderr;

impl Stderr {
    /// The line that reports `item`.
    pub open spec fn reported(item: ResolutionError) -> Seq<char> {
        "An error occurred during resolution at "@ + item.url@ + ": "@ + item.error@
    }

    /// The line that reports `item`.
    pub fn line(&self, item: &ResolutionError) -> (line: String)
        ensures
            line@ == Self::reported(*item),
    {
        "An error occurred during resolution at ".to_owned().concat(item.url.as_str()).concat(
            ": ",
        ).concat(item.error.as_str())
    }
}

} // verus!
