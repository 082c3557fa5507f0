//! The per-device warning state and the threshold evaluator.
//!
//! Charge levels and thresholds are fractions of a full charge, held in
//! per-mille (0 = empty, 1000 = full) so that a percentage with one decimal
//! place is represented exactly.

use vstd::prelude::*;

verus! {

/// Which of the two configured thresholds a warning refers to.
#[derive(Clone, Copy, PartialEq, Eq, Structural, Debug)]
pub enum ThresholdKind {
    Low,
    Critical,
}

/// Per-device record of which alerts have fired for the current excursion
/// below each threshold. A flag is set when its alert is dispatched and
/// cleared only once the charge rises strictly above that threshold again.
#[derive(Clone, Copy, PartialEq, Eq, Structural, Debug)]
pub struct WarningState {
    pub low_warned: bool,
    pub critical_warned: bool,
}

impl Default for WarningState {
    /// A fresh state is armed for both kinds: nothing has fired yet.
    fn default() -> (r: WarningState)
        ensures
            r == (WarningState { low_warned: false, critical_warned: false }),
    {
        WarningState { low_warned: false, critical_warned: false }
    }
}

/// The fired flag after one evaluation: set exactly while the charge sits at
/// or below the threshold.
pub open spec fn spec_new_fired(percent: nat, threshold: nat) -> bool {
    percent <= threshold
}

/// Whether one evaluation requests an alert: only on the transition into the
/// at-or-below region, i.e. when the flag is not already set.
pub open spec fn spec_should_alert(percent: nat, fired: bool, threshold: nat) -> bool {
    percent <= threshold && !fired
}

/// The threshold evaluator: a pure map from (current charge, previous fired
/// flag, threshold) to (new fired flag, alert request). Charge and threshold
/// are per-mille fractions; only their order matters here.
///
/// An alert is edge-triggered: it is requested exactly once per excursion at
/// or below the threshold, and the flag re-arms silently on recovery.
pub fn evaluate(percent: u32, fired: bool, threshold: u32) -> (r: (bool, bool))
    ensures
        r.0 == spec_new_fired(percent as nat, threshold as nat),
        r.1 == spec_should_alert(percent as nat, fired, threshold as nat),
        percent <= threshold && !fired ==> r == (true, true),
        percent <= threshold && fired ==> r == (true, false),
        percent > threshold ==> r == (false, false),
{
    if percent <= threshold {
        (true, !fired)
    } else {
        (false, false)
    }
}

} // verus!
