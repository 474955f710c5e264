//! The JSON text of an alert, as the store's `alert_preferences` rows hold
//! it. Every piece comes from a fixed alphabet (tokens and digits), so no
//! escaping arises.

use vstd::prelude::*;
use crate::alert::{spec_cadence_token, spec_metric_token};
use crate::bytes_util::{bytes_of, push_bytes, push_str_bytes};
use crate::monitor::AlertHeuristics;
use crate::variance::spec_render_variance;

verus! {

/// The JSON object an alert serializes to:
/// `{"cadence":"...","threshold":{"metric":"...","variance":...}}`.
pub open spec fn spec_alert_json(a: AlertHeuristics) -> Seq<u8> {
    bytes_of("{\"cadence\":\"") + spec_cadence_token(a.cadence) + bytes_of(
        "\",\"threshold\":{\"metric\":\"",
    ) + spec_metric_token(a.threshold.metric) + bytes_of("\",\"variance\":")
        + spec_render_variance(a.threshold.variance) + bytes_of("}}")
}

/// Serialize an alert to its JSON text.
pub fn alert_json(a: &AlertHeuristics) -> (r: Vec<u8>)
    requires
        a.threshold.variance.scale <= 18,
    ensures
        r@ == spec_alert_json(*a),
{
    let mut out: Vec<u8> = Vec::new();
    push_str_bytes(&mut out, "{\"cadence\":\"");
    let cadence = a.cadence.token();
    push_bytes(&mut out, cadence.as_slice());
    push_str_bytes(&mut out, "\",\"threshold\":{\"metric\":\"");
    let metric = a.threshold.metric.token();
    push_bytes(&mut out, metric.as_slice());
    push_str_bytes(&mut out, "\",\"variance\":");
    let variance = a.threshold.variance.render();
    push_bytes(&mut out, variance.as_slice());
    push_str_bytes(&mut out, "}}");
    assert(out@ =~= spec_alert_json(*a));
    out
}

} // verus!
