use vstd::arithmetic::div_mod::{lemma_add_mod_noop, lemma_mod_multiples_vanish};
use vstd::prelude::*;

verus! {

/// Addition with two's-complement wrap-around, exactly what a hardware
/// atomic fetch-and-add performs on a 64-bit signed word.
pub open spec fn wrap_add(a: i64, b: i64) -> i64 {
    vstd::wrapping::i64_specs::wrapping_add(a, b)
}

/// A signed event counter shared between one writer context (interrupt
/// handlers) and one reader context (the main loop). Increments wrap on
/// overflow, as the underlying atomic add would; a drain is a single
/// read-and-reset, so no event is lost or double-counted.
pub struct EventCounter {
    pub value: i64,
}

impl EventCounter {
    pub fn new() -> (c: EventCounter)
        ensures
            c.value == 0,
    {
        EventCounter { value: 0 }
    }

    /// Add `delta` to the pending total. Callable from interrupt context:
    /// a single bounded-time update, never blocking.
    pub fn increment(&mut self, delta: i64)
        ensures
            final(self).value == wrap_add(old(self).value, delta),
    {
        self.value = self.value.wrapping_add(delta);
    }

    /// Read-and-reset: return everything pending and leave zero behind,
    /// so a second drain with nothing in between returns zero.
    pub fn drain(&mut self) -> (total: i64)
        ensures
            total == old(self).value,
            final(self).value == 0,
    {
        let total = self.value;
        self.value = 0;
        total
    }
}

/// One event in the life of a counter: an increment issued from interrupt
/// context, or a drain issued from the main loop.
pub enum CounterOp {
    Inc { delta: i64 },
    Drain,
}

/// The value left pending in the counter after a history of operations,
/// starting from zero.
pub open spec fn pending_after(ops: Seq<CounterOp>) -> i64
    decreases ops.len(),
{
    if ops.len() == 0 {
        0i64
    } else {
        match ops.last() {
            CounterOp::Inc { delta } => wrap_add(pending_after(ops.drop_last()), delta),
            CounterOp::Drain => 0i64,
        }
    }
}

/// The exact sum of the values the drains in a history returned.
pub open spec fn drained_total(ops: Seq<CounterOp>) -> int
    decreases ops.len(),
{
    if ops.len() == 0 {
        0
    } else {
        match ops.last() {
            CounterOp::Inc { .. } => drained_total(ops.drop_last()),
            CounterOp::Drain => drained_total(ops.drop_last()) + pending_after(ops.drop_last()),
        }
    }
}

/// The exact net of all increments in a history.
pub open spec fn net_increments(ops: Seq<CounterOp>) -> int
    decreases ops.len(),
{
    if ops.len() == 0 {
        0
    } else {
        match ops.last() {
            CounterOp::Inc { delta } => net_increments(ops.drop_last()) + delta,
            CounterOp::Drain => net_increments(ops.drop_last()),
        }
    }
}

/// Every increment in the history is a decoded transition: one signed
/// step of -1, 0 or +1.
pub open spec fn unit_steps(ops: Seq<CounterOp>) -> bool {
    forall|i: int|
        0 <= i < ops.len() ==> (#[trigger] ops[i] matches CounterOp::Inc { delta } ==> -1 <= delta
            <= 1)
}

proof fn lemma_pending_bounded(ops: Seq<CounterOp>)
    requires
        unit_steps(ops),
        ops.len() <= i64::MAX,
    ensures
        -(ops.len() as int) <= pending_after(ops) <= ops.len() as int,
    decreases ops.len(),
{
    if ops.len() > 0 {
        let head = ops.drop_last();
        assert forall|i: int| 0 <= i < head.len() implies (#[trigger] head[i] matches CounterOp::Inc {
            delta,
        } ==> -1 <= delta <= 1) by {
            assert(head[i] == ops[i]);
        }
        lemma_pending_bounded(head);
    }
}

/// Conservation law: for any history of decoded unit steps and drains,
/// whatever the drain timing, the sum of all drain results plus what is
/// still pending equals the net signed count of the decoded transitions.
/// No event is lost and none is counted twice.
pub proof fn lemma_drain_conservation(ops: Seq<CounterOp>)
    requires
        unit_steps(ops),
        ops.len() <= i64::MAX,
    ensures
        drained_total(ops) + pending_after(ops) == net_increments(ops),
    decreases ops.len(),
{
    if ops.len() > 0 {
        let head = ops.drop_last();
        assert forall|i: int| 0 <= i < head.len() implies (#[trigger] head[i] matches CounterOp::Inc {
            delta,
        } ==> -1 <= delta <= 1) by {
            assert(head[i] == ops[i]);
        }
        lemma_drain_conservation(head);
        lemma_pending_bounded(head);
    }
}

/// Conservation law for arbitrary histories: increments of any size wrap
/// on overflow, so the books balance modulo the width of the counter
/// word. Whatever the drain timing, the sum of all drain results plus
/// what is still pending is congruent to the exact net of all increments.
pub proof fn lemma_drain_conservation_wrapping(ops: Seq<CounterOp>)
    ensures
        (drained_total(ops) + pending_after(ops)) % 0x1_0000_0000_0000_0000 == net_increments(ops)
            % 0x1_0000_0000_0000_0000,
    decreases ops.len(),
{
    let m: int = 0x1_0000_0000_0000_0000;
    if ops.len() > 0 {
        let head = ops.drop_last();
        lemma_drain_conservation_wrapping(head);
        let drained = drained_total(head);
        let pending = pending_after(head);
        let net = net_increments(head);
        match ops.last() {
            CounterOp::Inc { delta } => {
                // The wrapped new pending value differs from the exact sum
                // by a multiple of the modulus, which vanishes.
                let exact = drained + pending + delta;
                let shift: int = if pending + delta > i64::MAX {
                    -1
                } else if pending + delta < i64::MIN {
                    1
                } else {
                    0
                };
                assert(drained + pending_after(ops) == m * shift + exact);
                lemma_mod_multiples_vanish(shift, exact, m);
                lemma_add_mod_noop(drained + pending, delta as int, m);
                lemma_add_mod_noop(net, delta as int, m);
            },
            CounterOp::Drain => {},
        }
    }
}

/// A drain empties the counter, so of two consecutive drains the second
/// always returns zero: the pair yields (total, 0).
pub proof fn lemma_second_drain_zero(ops: Seq<CounterOp>)
    ensures
        pending_after(ops.push(CounterOp::Drain)) == 0,
        drained_total(ops.push(CounterOp::Drain).push(CounterOp::Drain)) == drained_total(
            ops.push(CounterOp::Drain),
        ),
{
    let once = ops.push(CounterOp::Drain);
    let twice = once.push(CounterOp::Drain);
    assert(twice.drop_last() =~= once);
}

} // verus!
