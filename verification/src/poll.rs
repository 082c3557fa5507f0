//! The per-cycle evaluation step of the poll loop: run the evaluator for each
//! configured threshold of one device, update its warning state, and collect
//! the alert requests owed for this cycle.

use vstd::prelude::*;

use crate::config::Thresholds;
use crate::state::ThresholdKind;
use crate::state::WarningState;
use crate::state::evaluate;
use crate::state::spec_new_fired;
use crate::state::spec_should_alert;
use crate::text::format_percent;
use crate::text::percent_text;

verus! {

/// One alert owed to the user: which threshold was crossed and the title and
/// body to display. The low alert keeps the sink's default title, so its
/// title is empty.
pub struct AlertRequest {
    pub kind: ThresholdKind,
    pub title: String,
    pub body: String,
}

/// The title of a low alert: none beyond the sink's default.
pub open spec fn low_title_text() -> Seq<char> {
    Seq::<char>::empty()
}

/// The title of a critical alert.
pub open spec fn critical_title_text() -> Seq<char> {
    ("Battery critical")@
}

/// The body of a low alert for a given per-mille charge.
pub open spec fn low_body_text(pm: nat) -> Seq<char> {
    ("Battery is low: ")@ + percent_text(pm) + ("%")@
}

/// The body of a critical alert for a given per-mille charge.
pub open spec fn critical_body_text(pm: nat) -> Seq<char> {
    ("Battery is critical: ")@ + percent_text(pm) + ("%")@
}

/// The low alert for a given per-mille charge.
pub fn low_alert(pm: u32) -> (r: AlertRequest)
    ensures
        r.kind == ThresholdKind::Low,
        r.title@ == low_title_text(),
        r.body@ == low_body_text(pm as nat),
{
    let mut body = String::from_str("Battery is low: ");
    let percent = format_percent(pm);
    body.append(percent.as_str());
    body.append("%");
    AlertRequest { kind: ThresholdKind::Low, title: String::new(), body }
}

/// The critical alert for a given per-mille charge.
pub fn critical_alert(pm: u32) -> (r: AlertRequest)
    ensures
        r.kind == ThresholdKind::Critical,
        r.title@ == critical_title_text(),
        r.body@ == critical_body_text(pm as nat),
{
    let mut body = String::from_str("Battery is critical: ");
    let percent = format_percent(pm);
    body.append(percent.as_str());
    body.append("%");
    AlertRequest { kind: ThresholdKind::Critical, title: String::from_str("Battery critical"), body }
}

/// Whether this cycle owes a low alert: a low threshold is configured, the
/// charge sits at or below it, and no low alert has fired this excursion.
pub open spec fn spec_low_fires(state: WarningState, pm: nat, thresholds: Thresholds) -> bool {
    thresholds.low_percent is Some && spec_should_alert(
        pm,
        state.low_warned,
        (10 * thresholds.low_percent->Some_0) as nat,
    )
}

/// The low fired flag after the cycle: tracks the threshold when one is
/// configured, otherwise stays as it was.
pub open spec fn spec_low_next(state: WarningState, pm: nat, thresholds: Thresholds) -> bool {
    if thresholds.low_percent is Some {
        spec_new_fired(pm, (10 * thresholds.low_percent->Some_0) as nat)
    } else {
        state.low_warned
    }
}

/// Whether this cycle owes a critical alert.
pub open spec fn spec_critical_fires(state: WarningState, pm: nat, thresholds: Thresholds) -> bool {
    thresholds.critical_percent is Some && spec_should_alert(
        pm,
        state.critical_warned,
        (10 * thresholds.critical_percent->Some_0) as nat,
    )
}

/// The critical fired flag after the cycle.
pub open spec fn spec_critical_next(state: WarningState, pm: nat, thresholds: Thresholds) -> bool {
    if thresholds.critical_percent is Some {
        spec_new_fired(pm, (10 * thresholds.critical_percent->Some_0) as nat)
    } else {
        state.critical_warned
    }
}

/// One poll cycle for one device: evaluate the low threshold, then the
/// critical one, persist both new fired flags, and return the alerts owed,
/// low before critical.
pub fn evaluate_device(percent: u32, state: &mut WarningState, thresholds: &Thresholds) -> (alerts:
    Vec<AlertRequest>)
    ensures
        final(state).low_warned == spec_low_next(*old(state), percent as nat, *thresholds),
        final(state).critical_warned == spec_critical_next(
            *old(state),
            percent as nat,
            *thresholds,
        ),
        alerts@.len() == (if spec_low_fires(*old(state), percent as nat, *thresholds) {
            1int
        } else {
            0int
        }) + (if spec_critical_fires(*old(state), percent as nat, *thresholds) {
            1int
        } else {
            0int
        }),
        spec_low_fires(*old(state), percent as nat, *thresholds) ==> alerts@[0].kind
            == ThresholdKind::Low && alerts@[0].title@ == low_title_text() && alerts@[0].body@
            == low_body_text(percent as nat),
        spec_critical_fires(*old(state), percent as nat, *thresholds) ==> alerts@[alerts@.len()
            - 1].kind == ThresholdKind::Critical && alerts@[alerts@.len() - 1].title@
            == critical_title_text() && alerts@[alerts@.len() - 1].body@ == critical_body_text(
            percent as nat,
        ),
{
    let mut alerts: Vec<AlertRequest> = Vec::new();
    match thresholds.low_percent {
        Some(low) => {
            let threshold = crate::config::threshold_per_mille(low);
            let (new_fired, should_alert) = evaluate(percent, state.low_warned, threshold);
            state.low_warned = new_fired;
            if should_alert {
                alerts.push(low_alert(percent));
            }
        },
        None => {},
    }
    match thresholds.critical_percent {
        Some(critical) => {
            let threshold = crate::config::threshold_per_mille(critical);
            let (new_fired, should_alert) = evaluate(percent, state.critical_warned, threshold);
            state.critical_warned = new_fired;
            if should_alert {
                alerts.push(critical_alert(percent));
            }
        },
        None => {},
    }
    alerts
}

/// The low warning never interferes with the critical one: whether a
/// critical alert fires in a cycle, and the critical flag the cycle leaves
/// behind, depend only on the critical flag going in, never on the low one.
pub proof fn lemma_critical_independent_of_low(
    s1: WarningState,
    s2: WarningState,
    pm: nat,
    thresholds: Thresholds,
)
    requires
        s1.critical_warned == s2.critical_warned,
    ensures
        spec_critical_fires(s1, pm, thresholds) == spec_critical_fires(s2, pm, thresholds),
        spec_critical_next(s1, pm, thresholds) == spec_critical_next(s2, pm, thresholds),
{
}

/// The critical warning never interferes with the low one: whether a low
/// alert fires in a cycle, and the low flag the cycle leaves behind, depend
/// only on the low flag going in, never on the critical one.
pub proof fn lemma_low_independent_of_critical(
    s1: WarningState,
    s2: WarningState,
    pm: nat,
    thresholds: Thresholds,
)
    requires
        s1.low_warned == s2.low_warned,
    ensures
        spec_low_fires(s1, pm, thresholds) == spec_low_fires(s2, pm, thresholds),
        spec_low_next(s1, pm, thresholds) == spec_low_next(s2, pm, thresholds),
{
}

} // verus!
