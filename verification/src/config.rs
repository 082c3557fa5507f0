//! Threshold configuration and its startup validation.

use vstd::prelude::*;

verus! {

/// The one fatal configuration fault: a critical threshold that is not
/// strictly below the low threshold.
#[derive(Clone, Copy, PartialEq, Eq, Structural, Debug)]
pub enum ConfigError {
    CriticalNotBelowLow,
}

impl ConfigError {
    /// The explanation shown to the user when the configuration is rejected.
    pub fn message(&self) -> (r: String)
        ensures
            r@ == ("Critical battery percentage should be less than low battery percentage")@,
    {
        String::from_str("Critical battery percentage should be less than low battery percentage")
    }
}

/// The configured warning levels, each an optional whole percentage of a
/// full charge.
#[derive(Clone, Copy, PartialEq, Eq, Structural, Debug)]
pub struct Thresholds {
    pub low_percent: Option<u8>,
    pub critical_percent: Option<u8>,
}

impl Thresholds {
    /// When both levels are configured, critical must lie strictly below low:
    /// it names the more severe, lower charge.
    pub open spec fn well_ordered(self) -> bool {
        (self.low_percent is Some && self.critical_percent is Some) ==> self.critical_percent
            ->Some_0 < self.low_percent->Some_0
    }

    /// Startup validation, run before any device is polled: accepts the
    /// configuration exactly when it is well ordered.
    pub fn validate(&self) -> (r: Result<(), ConfigError>)
        ensures
            r is Ok <==> self.well_ordered(),
            !self.well_ordered() ==> r == Result::<(), ConfigError>::Err(
                ConfigError::CriticalNotBelowLow,
            ),
    {
        match (self.critical_percent, self.low_percent) {
            (Some(critical), Some(low)) => {
                if critical >= low {
                    Err(ConfigError::CriticalNotBelowLow)
                } else {
                    Ok(())
                }
            },
            _ => Ok(()),
        }
    }
}

/// A whole percentage turned into the per-mille scale the evaluator uses.
pub fn threshold_per_mille(percent: u8) -> (r: u32)
    ensures
        r == 10 * percent,
{
    percent as u32 * 10
}

} // verus!
