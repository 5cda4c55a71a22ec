use vstd::prelude::*;

verus! {

/// The two phase-offset lines of a quadrature pair.
#[derive(Clone, Copy, PartialEq, Eq, Structural, Debug)]
pub enum Channel {
    A,
    B,
}

/// The signed step one edge decodes to: an active edge on the trigger
/// channel (the line now reads low) with the partner channel also low is
/// one step, whose sign the firing channel and the configured polarity
/// choose; anything else is no step.
pub open spec fn decode_step(
    a_positive: bool,
    ch: Channel,
    trigger_low: bool,
    partner_low: bool,
) -> int {
    if trigger_low && partner_low {
        match ch {
            Channel::A => if a_positive {
                1
            } else {
                -1
            },
            Channel::B => if a_positive {
                -1
            } else {
                1
            },
        }
    } else {
        0
    }
}

/// Simplified quadrature decoder: each channel contributes one active edge
/// per detent, disambiguated by the instantaneous level of the partner
/// channel, both sampled inside the same handler invocation. This is not a
/// full four-state decode; its resolution is lower, and near-simultaneous
/// edges on both channels are ordered only by configured interrupt
/// priorities.
pub struct QuadratureDecoder {
    /// Polarity: when true, channel A steps +1 and channel B steps -1;
    /// when false, the other way round.
    pub a_positive: bool,
    /// The level of channel A as last observed by a handler (true = low).
    pub a_low: bool,
    /// The level of channel B as last observed by a handler (true = low).
    pub b_low: bool,
    /// The sign of the most recent nonzero step, or 0 before the first.
    pub last_direction: i8,
}

impl QuadratureDecoder {
    /// Well-formed: the remembered direction is a sign.
    pub open spec fn wf(self) -> bool {
        -1 <= self.last_direction <= 1
    }

    /// The decoder state after one edge: both observed levels refreshed
    /// from the same handler invocation, and the direction remembered
    /// whenever the edge decodes to a step.
    pub open spec fn step_state(self, ch: Channel, trigger_low: bool, partner_low: bool)
        -> QuadratureDecoder {
        let delta = decode_step(self.a_positive, ch, trigger_low, partner_low);
        QuadratureDecoder {
            a_positive: self.a_positive,
            a_low: if ch is A {
                trigger_low
            } else {
                partner_low
            },
            b_low: if ch is B {
                trigger_low
            } else {
                partner_low
            },
            last_direction: if delta == 0 {
                self.last_direction
            } else {
                delta as i8
            },
        }
    }

    /// A fresh decoder; both lines idle high, no motion seen yet.
    pub fn new(a_positive: bool) -> (d: QuadratureDecoder)
        ensures
            d.wf(),
            d == (QuadratureDecoder {
                a_positive,
                a_low: false,
                b_low: false,
                last_direction: 0i8,
            }),
    {
        QuadratureDecoder { a_positive, a_low: false, b_low: false, last_direction: 0 }
    }

    /// Decode one edge, reported by the handler of the channel that fired
    /// together with the level of that channel and of its partner, both
    /// read in the same invocation. Returns the signed step to feed to the
    /// event counter.
    pub fn on_edge(&mut self, ch: Channel, trigger_low: bool, partner_low: bool) -> (delta: i8)
        requires
            old(self).wf(),
        ensures
            final(self).wf(),
            delta as int == decode_step(old(self).a_positive, ch, trigger_low, partner_low),
            *final(self) == old(self).step_state(ch, trigger_low, partner_low),
    {
        let delta: i8 = if trigger_low && partner_low {
            match ch {
                Channel::A => if self.a_positive {
                    1
                } else {
                    -1
                },
                Channel::B => if self.a_positive {
                    -1
                } else {
                    1
                },
            }
        } else {
            0
        };
        match ch {
            Channel::A => {
                self.a_low = trigger_low;
                self.b_low = partner_low;
            },
            Channel::B => {
                self.b_low = trigger_low;
                self.a_low = partner_low;
            },
        }
        if delta != 0 {
            self.last_direction = delta;
        }
        delta
    }
}

/// Law: an active trigger edge with the partner channel low decodes to one
/// signed step whose sign follows the firing channel and the configured
/// polarity; with the partner channel high, or without an active edge, it
/// decodes to no step.
pub proof fn lemma_decode_step_signs(
    a_positive: bool,
    ch: Channel,
    trigger_low: bool,
    partner_low: bool,
)
    ensures
        trigger_low && partner_low && ch is A ==> decode_step(a_positive, ch, trigger_low,
            partner_low) == if a_positive {
            1int
        } else {
            -1int
        },
        trigger_low && partner_low && ch is B ==> decode_step(a_positive, ch, trigger_low,
            partner_low) == if a_positive {
            -1int
        } else {
            1int
        },
        !(trigger_low && partner_low) ==> decode_step(a_positive, ch, trigger_low, partner_low)
            == 0,
{
}

} // verus!
