use vstd::prelude::*;

verus! {

/// A logical level change committed by the debounce filter.
#[derive(Clone, Copy, PartialEq, Eq, Structural, Debug)]
pub enum LevelChange {
    Pressed,
    Released,
}

/// Converts a raw contact level, sampled at a fixed external cadence, into
/// a stable logical state. A change of the stable state is committed only
/// once `threshold` consecutive samples have shown the same level and that
/// level differs from the current stable state; the effective debounce
/// window is the sampling cadence times `threshold`.
pub struct DebounceFilter {
    /// The raw level seen at the previous sample.
    pub last_raw: bool,
    /// The committed logical state.
    pub stable: bool,
    /// How many consecutive samples, the latest included, have shown the
    /// current raw level (capped at `threshold`; the cap changes nothing
    /// observable, since a longer run commits at the threshold already).
    pub count: u32,
    /// How many consecutive identical samples commit a change.
    pub threshold: u32,
}

impl DebounceFilter {
    /// Well-formed: a window of at least one sample, and a run counter
    /// that never runs past the window.
    pub open spec fn wf(self) -> bool {
        1 <= self.threshold && self.count <= self.threshold
    }

    /// The run counter after one sample: a differing level starts a new
    /// run of one; a matching level extends the run, up to the cap.
    pub open spec fn step_count(self, raw: bool) -> u32 {
        if raw != self.last_raw {
            1u32
        } else if self.count < self.threshold {
            (self.count + 1) as u32
        } else {
            self.count
        }
    }

    /// Whether this sample commits a change of the stable state.
    pub open spec fn commits(self, raw: bool) -> bool {
        self.step_count(raw) >= self.threshold && raw != self.stable
    }

    /// The filter state after one sample.
    pub open spec fn step_state(self, raw: bool) -> DebounceFilter {
        DebounceFilter {
            last_raw: raw,
            stable: if self.commits(raw) {
                raw
            } else {
                self.stable
            },
            count: self.step_count(raw),
            threshold: self.threshold,
        }
    }

    /// The event one sample emits: a change when it commits, else nothing.
    pub open spec fn step_event(self, raw: bool) -> Option<LevelChange> {
        if self.commits(raw) {
            if raw {
                Some(LevelChange::Pressed)
            } else {
                Some(LevelChange::Released)
            }
        } else {
            None
        }
    }

    /// A fresh filter whose stable state is the caller-chosen initial
    /// level, typically the inactive one.
    pub fn new(initial: bool, threshold: u32) -> (f: DebounceFilter)
        requires
            1 <= threshold,
        ensures
            f.wf(),
            f == (DebounceFilter { last_raw: initial, stable: initial, count: 0u32, threshold }),
    {
        DebounceFilter { last_raw: initial, stable: initial, count: 0, threshold }
    }

    /// Feed one raw sample, taken at the fixed cadence. Returns the level
    /// change this sample commits, if any.
    pub fn sample(&mut self, raw: bool) -> (change: Option<LevelChange>)
        requires
            old(self).wf(),
        ensures
            final(self).wf(),
            *final(self) == old(self).step_state(raw),
            change == old(self).step_event(raw),
    {
        if raw != self.last_raw {
            self.count = 1;
        } else if self.count < self.threshold {
            self.count = self.count + 1;
        }
        self.last_raw = raw;
        if self.count >= self.threshold && raw != self.stable {
            self.stable = raw;
            if raw {
                Some(LevelChange::Pressed)
            } else {
                Some(LevelChange::Released)
            }
        } else {
            None
        }
    }
}

/// The filter state after feeding a whole sequence of raw samples.
pub open spec fn run_filter(s: DebounceFilter, raws: Seq<bool>) -> DebounceFilter
    decreases raws.len(),
{
    if raws.len() == 0 {
        s
    } else {
        run_filter(s.step_state(raws[0]), raws.subrange(1, raws.len() as int))
    }
}

/// How many level changes feeding a whole sequence of raw samples commits.
pub open spec fn emit_count(s: DebounceFilter, raws: Seq<bool>) -> nat
    decreases raws.len(),
{
    if raws.len() == 0 {
        0nat
    } else {
        (if s.step_event(raws[0]) is Some {
            1nat
        } else {
            0nat
        }) + emit_count(s.step_state(raws[0]), raws.subrange(1, raws.len() as int))
    }
}

/// While the raw level agrees with the stable state, nothing is ever
/// committed, however long the run.
proof fn lemma_stable_run_no_emit(s: DebounceFilter, v: bool, n: nat)
    requires
        s.wf(),
        s.stable == v,
    ensures
        emit_count(s, Seq::new(n, |i: int| v)) == 0,
    decreases n,
{
    if n > 0 {
        let raws = Seq::new(n, |i: int| v);
        let s1 = s.step_state(v);
        assert(raws.subrange(1, n as int) =~= Seq::new((n - 1) as nat, |i: int| v));
        lemma_stable_run_no_emit(s1, v, (n - 1) as nat);
    }
}

/// A run of samples matching the current raw level, from inside the
/// window: the run commits exactly one change when it reaches the
/// threshold, and nothing before.
proof fn lemma_matching_run(s: DebounceFilter, v: bool, n: nat)
    requires
        s.wf(),
        s.last_raw == v,
        s.stable != v,
        s.count < s.threshold,
        s.count + n <= s.threshold,
    ensures
        emit_count(s, Seq::new(n, |i: int| v)) == if s.count + n == s.threshold {
            1nat
        } else {
            0nat
        },
    decreases n,
{
    if n > 0 {
        let raws = Seq::new(n, |i: int| v);
        let s1 = s.step_state(v);
        assert(raws.subrange(1, n as int) =~= Seq::new((n - 1) as nat, |i: int| v));
        if s.count + 1 == s.threshold {
            lemma_stable_run_no_emit(s1, v, (n - 1) as nat);
        } else {
            lemma_matching_run(s1, v, (n - 1) as nat);
        }
    }
}

/// Law: after a raw level change away from the stable state, fewer than
/// `threshold` consecutive samples of the new level commit no change at
/// all; exactly `threshold` such samples commit exactly one.
pub proof fn lemma_threshold_commits(s: DebounceFilter, v: bool, n: nat)
    requires
        s.wf(),
        v != s.last_raw,
        v != s.stable,
        n <= s.threshold,
    ensures
        emit_count(s, Seq::new(n, |i: int| v)) == if n == s.threshold {
            1nat
        } else {
            0nat
        },
{
    if n > 0 {
        let raws = Seq::new(n, |i: int| v);
        let s1 = s.step_state(v);
        assert(raws.subrange(1, n as int) =~= Seq::new((n - 1) as nat, |i: int| v));
        if s.threshold == 1 {
            lemma_stable_run_no_emit(s1, v, (n - 1) as nat);
        } else {
            lemma_matching_run(s1, v, (n - 1) as nat);
        }
    }
}

/// An alternating run: every sample differs from its predecessor, and the
/// first differs from the level last seen by the filter.
proof fn lemma_alternating_from_change(s: DebounceFilter, raws: Seq<bool>)
    requires
        s.wf(),
        s.threshold >= 2,
        raws.len() > 0 ==> raws[0] != s.last_raw,
        forall|i: int| 1 <= i < raws.len() ==> #[trigger] raws[i] != raws[i - 1],
    ensures
        emit_count(s, raws) == 0,
        run_filter(s, raws).stable == s.stable,
    decreases raws.len(),
{
    if raws.len() > 0 {
        let s1 = s.step_state(raws[0]);
        let tail = raws.subrange(1, raws.len() as int);
        assert forall|i: int| 1 <= i < tail.len() implies #[trigger] tail[i] != tail[i - 1] by {
            assert(tail[i] == raws[i + 1]);
            assert(tail[i - 1] == raws[i]);
        }
        if tail.len() > 0 {
            assert(tail[0] == raws[1]);
        }
        lemma_alternating_from_change(s1, tail);
    }
}

/// Law: a bouncing raw sequence — one where every sample differs from its
/// predecessor, so no run of equal samples reaches a threshold of at least
/// two — commits no change at all, however long it is, when fed to a
/// fresh filter.
pub proof fn lemma_bounce_commits_nothing(s: DebounceFilter, raws: Seq<bool>)
    requires
        s.wf(),
        s.count == 0,
        s.threshold >= 2,
        forall|i: int| 1 <= i < raws.len() ==> #[trigger] raws[i] != raws[i - 1],
    ensures
        emit_count(s, raws) == 0,
        run_filter(s, raws).stable == s.stable,
{
    if raws.len() > 0 {
        let s1 = s.step_state(raws[0]);
        let tail = raws.subrange(1, raws.len() as int);
        assert forall|i: int| 1 <= i < tail.len() implies #[trigger] tail[i] != tail[i - 1] by {
            assert(tail[i] == raws[i + 1]);
            assert(tail[i - 1] == raws[i]);
        }
        if tail.len() > 0 {
            assert(tail[0] == raws[1]);
        }
        lemma_alternating_from_change(s1, tail);
    }
}

} // verus!
