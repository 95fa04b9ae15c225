//! The paths.

use vstd::prelude::*;

verus! {

/// The subdirectory of the operator's config directory to look for the
/// configs at.
pub const SUBDIR: &'static str = "humanode-launcher";

} // verus!
