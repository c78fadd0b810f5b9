//! Risk-neutral probability extraction: which estimator served as primary.

use vstd::prelude::*;

verus! {

/// Which probability method was used as primary.
#[derive(Debug, Clone, Copy, PartialEq, Eq, Structural)]
pub enum ProbabilityMethod {
    /// Call-spread replication using observed bracket strikes.
    CallSpreadReplication,
    /// Black-76 `N(d2)` with skew adjustment.
    Nd2SkewAdjusted,
}

} // verus!
