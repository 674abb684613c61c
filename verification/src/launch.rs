//! What a run is launched with.
use vstd::prelude::*;

verus! {

/// Whether a run takes over the trust recorded for its project.
#[derive(Clone, Copy, Debug, PartialEq, Eq, Structural)]
pub enum ProjectTrustPolicy {
    Inherit,
    Ignore,
}

} // verus!
