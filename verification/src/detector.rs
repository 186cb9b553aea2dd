//! The capability shared by all detectors: a pure check over accumulated
//! per-function state, and the source span to attach to a positive finding.

use vstd::prelude::*;
use crate::cfg::SourceSpan;

verus! {

/// Common surface of the four detectors. Recording hooks are
/// detector-specific and stay inherent; `check` and `span` are uniform, so a
/// traversal driver can finish every active detector the same way.
pub trait Detector {
    /// Whether the accumulated state constitutes a positive finding.
    spec fn triggered(&self) -> bool;

    /// The span a positive finding would report.
    spec fn finding_span(&self) -> SourceSpan;

    /// Pure, idempotent decision over the accumulated state.
    fn check(&self) -> (r: bool)
        ensures
            r == self.triggered(),
    ;

    /// Location to attach to a positive finding; meaningful only when
    /// `check` returns true.
    fn span(&self) -> (s: SourceSpan)
        ensures
            s == self.finding_span(),
    ;
}

} // verus!
