use vstd::prelude::*;

use crate::counter::EventCounter;

verus! {

/// Main-loop consumer, driven by a fixed-cadence timer tick: at each tick
/// it drains every counter it is given and hands the drained values on,
/// in order, for an output sink. It decodes and filters nothing itself,
/// and it never blocks; a slow sink delays only the next report, since
/// interrupts pre-empt the main loop.
pub struct PeriodicReporter {
    /// How many ticks have been consumed.
    pub ticks: u64,
}

impl PeriodicReporter {
    /// A reporter that has not seen a tick yet.
    pub fn new() -> (r: PeriodicReporter)
        ensures
            r.ticks == 0,
    {
        PeriodicReporter { ticks: 0 }
    }

    /// One periodic tick: drain each counter once, in order, and return
    /// the drained values for the sink. Every counter is left empty, so
    /// nothing is reported twice at the next tick.
    pub fn on_tick(&mut self, counters: &mut Vec<EventCounter>) -> (values: Vec<i64>)
        requires
            old(self).ticks < u64::MAX,
        ensures
            final(self).ticks == old(self).ticks + 1,
            values.len() == old(counters).len(),
            final(counters).len() == old(counters).len(),
            forall|i: int|
                0 <= i < values.len() ==> values[i] == old(counters)[i].value,
            forall|i: int| 0 <= i < final(counters).len() ==> final(counters)[i].value == 0,
    {
        let mut values: Vec<i64> = Vec::new();
        let mut idx: usize = 0;
        while idx < counters.len()
            invariant
                idx <= counters.len(),
                values.len() == idx,
                counters.len() == old(counters).len(),
                forall|i: int| 0 <= i < idx ==> values[i] == old(counters)[i].value,
                forall|i: int| 0 <= i < idx ==> counters[i].value == 0,
                forall|i: int| idx <= i < counters.len() ==> counters[i] == old(counters)[i],
            decreases counters.len() - idx,
        {
            let drained = counters[idx].drain();
            values.push(drained);
            idx = idx + 1;
        }
        self.ticks = self.ticks + 1;
        values
    }
}

} // verus!
