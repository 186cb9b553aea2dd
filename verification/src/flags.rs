//! The three single-flag detectors. Each records whether its function ever
//! referenced a signature from its own table — randomness sources for
//! bad-randomness, clock sources for time-manipulation, rounding functions
//! for numerical-precision — and reports exactly that. The first match also
//! fixes the reported span; later matches change nothing.

use vstd::prelude::*;
use crate::cfg::SourceSpan;
use crate::detector::Detector;

verus! {

/// Holds state for the bad-randomness detector: set when the analyzed
/// function references a recognized randomness-source API.
pub struct BadrandomnessChecker {
    pub check_for_rand_lib: bool,
    pub bad_randomness_span: SourceSpan,
}

impl BadrandomnessChecker {
    pub fn new() -> (c: BadrandomnessChecker)
        ensures
            !c.check_for_rand_lib,
            c.bad_randomness_span == (SourceSpan { lo: 0, hi: 0 }),
    {
        BadrandomnessChecker { check_for_rand_lib: false, bad_randomness_span: SourceSpan { lo: 0, hi: 0 } }
    }

    /// Records one reference to a randomness-source signature. Idempotent on
    /// repeat matches: the flag stays set and the first span is kept.
    pub fn record(&mut self, span: SourceSpan)
        ensures
            final(self).check_for_rand_lib,
            final(self).bad_randomness_span == (if old(self).check_for_rand_lib {
                old(self).bad_randomness_span
            } else {
                span
            }),
    {
        if !self.check_for_rand_lib {
            self.check_for_rand_lib = true;
            self.bad_randomness_span = span;
        }
    }
}

impl Detector for BadrandomnessChecker {
    open spec fn triggered(&self) -> bool {
        self.check_for_rand_lib
    }

    open spec fn finding_span(&self) -> SourceSpan {
        self.bad_randomness_span
    }

    fn check(&self) -> (r: bool) {
        self.check_for_rand_lib
    }

    fn span(&self) -> (s: SourceSpan) {
        self.bad_randomness_span
    }
}

/// Holds state for the time-manipulation detector: set when the analyzed
/// function references a recognized clock-source API.
pub struct TimeManipulationChecker {
    pub check_for_clock_lib: bool,
    pub time_manipulation_span: SourceSpan,
}

impl TimeManipulationChecker {
    pub fn new() -> (c: TimeManipulationChecker)
        ensures
            !c.check_for_clock_lib,
            c.time_manipulation_span == (SourceSpan { lo: 0, hi: 0 }),
    {
        TimeManipulationChecker { check_for_clock_lib: false, time_manipulation_span: SourceSpan { lo: 0, hi: 0 } }
    }

    /// Records one reference to a clock-source signature; first match wins
    /// the span, repeats are no-ops.
    pub fn record(&mut self, span: SourceSpan)
        ensures
            final(self).check_for_clock_lib,
            final(self).time_manipulation_span == (if old(self).check_for_clock_lib {
                old(self).time_manipulation_span
            } else {
                span
            }),
    {
        if !self.check_for_clock_lib {
            self.check_for_clock_lib = true;
            self.time_manipulation_span = span;
        }
    }
}

impl Detector for TimeManipulationChecker {
    open spec fn triggered(&self) -> bool {
        self.check_for_clock_lib
    }

    open spec fn finding_span(&self) -> SourceSpan {
        self.time_manipulation_span
    }

    fn check(&self) -> (r: bool) {
        self.check_for_clock_lib
    }

    fn span(&self) -> (s: SourceSpan) {
        self.time_manipulation_span
    }
}

/// Holds state for the numerical-precision detector: set when the analyzed
/// function references a recognized rounding function.
pub struct NumericalPrecisionErrorChecker {
    pub check_for_round_func: bool,
    pub numerical_precision_error_span: SourceSpan,
}

impl NumericalPrecisionErrorChecker {
    pub fn new() -> (c: NumericalPrecisionErrorChecker)
        ensures
            !c.check_for_round_func,
            c.numerical_precision_error_span == (SourceSpan { lo: 0, hi: 0 }),
    {
        NumericalPrecisionErrorChecker {
            check_for_round_func: false,
            numerical_precision_error_span: SourceSpan { lo: 0, hi: 0 },
        }
    }

    /// Records one reference to a rounding-function signature; first match
    /// wins the span, repeats are no-ops.
    pub fn record(&mut self, span: SourceSpan)
        ensures
            final(self).check_for_round_func,
            final(self).numerical_precision_error_span == (if old(self).check_for_round_func {
                old(self).numerical_precision_error_span
            } else {
                span
            }),
    {
        if !self.check_for_round_func {
            self.check_for_round_func = true;
            self.numerical_precision_error_span = span;
        }
    }
}

impl Detector for NumericalPrecisionErrorChecker {
    open spec fn triggered(&self) -> bool {
        self.check_for_round_func
    }

    open spec fn finding_span(&self) -> SourceSpan {
        self.numerical_precision_error_span
    }

    fn check(&self) -> (r: bool) {
        self.check_for_round_func
    }

    fn span(&self) -> (s: SourceSpan) {
        self.numerical_precision_error_span
    }
}

} // verus!
