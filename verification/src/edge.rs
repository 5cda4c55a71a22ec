use vstd::prelude::*;

verus! {

/// Direction of one physical edge on a line.
#[derive(Clone, Copy, PartialEq, Eq, Structural, Debug)]
pub enum EdgeDirection {
    Rising,
    Falling,
}

/// Which edges a line is configured to latch its pending flag for.
#[derive(Clone, Copy, PartialEq, Eq, Structural, Debug)]
pub enum EdgeTrigger {
    Rising,
    Falling,
    Either,
}

/// One edge event as hardware delivers it: which line saw it, and in
/// which direction the level moved.
#[derive(Clone, Copy, PartialEq, Eq, Structural, Debug)]
pub struct EdgeEvent {
    pub line: u32,
    pub direction: EdgeDirection,
}

/// Whether a trigger configuration reacts to an edge of this direction.
pub open spec fn trigger_matches(trigger: EdgeTrigger, direction: EdgeDirection) -> bool {
    match trigger {
        EdgeTrigger::Rising => direction is Rising,
        EdgeTrigger::Falling => direction is Falling,
        EdgeTrigger::Either => true,
    }
}

/// Model of a GPIO line configured as an edge-triggered interrupt source:
/// a line id, the trigger-edge selection, and the latched pending flag.
/// The flag stays latched until a handler clears it; a handler that
/// returns without clearing would be re-entered at once, so every service
/// routine here checks the flag, acts, and clears it before returning.
pub struct EdgeLine {
    pub line: u32,
    pub trigger: EdgeTrigger,
    pub pending: bool,
}

impl EdgeLine {
    /// A freshly configured line: nothing pending yet.
    pub fn new(line: u32, trigger: EdgeTrigger) -> (l: EdgeLine)
        ensures
            l == (EdgeLine { line, trigger, pending: false }),
    {
        EdgeLine { line, trigger, pending: false }
    }

    /// Select which edges latch the pending flag.
    pub fn configure(&mut self, trigger: EdgeTrigger)
        ensures
            *final(self) == (EdgeLine { trigger, ..*old(self) }),
    {
        self.trigger = trigger;
    }

    /// An edge arrives from the hardware: the flag latches when the event
    /// is for this line and its direction matches the trigger, and an
    /// already-latched flag stays latched.
    pub fn raise(&mut self, event: EdgeEvent)
        ensures
            final(self).line == old(self).line,
            final(self).trigger == old(self).trigger,
            final(self).pending == (old(self).pending || (event.line == old(self).line
                && trigger_matches(old(self).trigger, event.direction))),
    {
        let matches_line = event.line == self.line;
        let matches_trigger = match (self.trigger, event.direction) {
            (EdgeTrigger::Rising, EdgeDirection::Rising) => true,
            (EdgeTrigger::Falling, EdgeDirection::Falling) => true,
            (EdgeTrigger::Either, _) => true,
            _ => false,
        };
        if matches_line && matches_trigger {
            self.pending = true;
        }
    }

    /// Non-destructive check of the pending flag, the first step of every
    /// handler invocation.
    pub fn pending(&self) -> (p: bool)
        ensures
            p == self.pending,
    {
        self.pending
    }

    /// Acknowledge the interrupt. A handler must call this after acting
    /// and before returning, or the interrupt fires again immediately.
    pub fn clear_pending(&mut self)
        ensures
            *final(self) == (EdgeLine { pending: false, ..*old(self) }),
    {
        self.pending = false;
    }
}

} // verus!
