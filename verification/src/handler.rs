use vstd::prelude::*;

use crate::counter::{wrap_add, EventCounter};
use crate::edge::EdgeLine;
use crate::quadrature::{decode_step, Channel, QuadratureDecoder};

verus! {

/// Handler body for an edge-counted line: check the pending flag, count
/// the edge, then clear the flag before returning. A spurious invocation
/// (no flag set) is a no-op, and the flag is never down before the count
/// is in, so no edge is lost to the mandatory clear.
pub fn service_count(line: &mut EdgeLine, counter: &mut EventCounter, delta: i64) -> (handled:
    bool)
    ensures
        handled == old(line).pending,
        final(line).line == old(line).line,
        final(line).trigger == old(line).trigger,
        !final(line).pending,
        final(counter).value == if old(line).pending {
            wrap_add(old(counter).value, delta)
        } else {
            old(counter).value
        },
{
    if line.pending() {
        counter.increment(delta);
        line.clear_pending();
        true
    } else {
        false
    }
}

/// Handler body for one channel of a quadrature pair: check the pending
/// flag, decode the edge against the partner level read in the same
/// invocation, feed the signed step to the counter, then clear the flag.
/// A spurious invocation leaves decoder and counter untouched.
pub fn service_quadrature(
    line: &mut EdgeLine,
    decoder: &mut QuadratureDecoder,
    ch: Channel,
    trigger_low: bool,
    partner_low: bool,
    counter: &mut EventCounter,
) -> (handled: bool)
    requires
        old(decoder).wf(),
    ensures
        handled == old(line).pending,
        final(line).line == old(line).line,
        final(line).trigger == old(line).trigger,
        !final(line).pending,
        final(decoder).wf(),
        old(line).pending ==> *final(decoder) == old(decoder).step_state(
            ch,
            trigger_low,
            partner_low,
        ) && final(counter).value == wrap_add(
            old(counter).value,
            decode_step(old(decoder).a_positive, ch, trigger_low, partner_low) as i64,
        ),
        !old(line).pending ==> *final(decoder) == *old(decoder) && *final(counter) == *old(
            counter,
        ),
{
    if line.pending() {
        let delta = decoder.on_edge(ch, trigger_low, partner_low);
        counter.increment(delta as i64);
        line.clear_pending();
        true
    } else {
        false
    }
}

} // verus!
