use vstd::prelude::*;

verus! {

/// A programmer-misuse failure: the cell was initialized twice, or was
/// used before it was initialized. Such a failure marks a logic defect,
/// never a recoverable runtime condition.
#[derive(Clone, Copy, PartialEq, Eq, Structural, Debug)]
pub struct MisuseError;

/// A one-shot ownership slot that hands a configured hardware handle from
/// the single-threaded initialization phase to the interrupt handler that
/// owns it thereafter. It is filled exactly once, before interrupts are
/// unmasked; afterwards the handler reaches the handle through `with_mut`,
/// which the surrounding program runs inside a critical section (with
/// interrupts disabled), so the section must stay minimal.
pub struct PeripheralCell<T> {
    pub slot: Option<T>,
}

impl<T> PeripheralCell<T> {
    /// An empty cell, as created at boot.
    pub fn new() -> (c: PeripheralCell<T>)
        ensures
            c.slot is None,
    {
        PeripheralCell { slot: None }
    }

    /// Whether the one-time handoff has happened.
    pub fn is_initialized(&self) -> (r: bool)
        ensures
            r == (self.slot is Some),
    {
        self.slot.is_some()
    }

    /// The one-time handoff: store the handle. Succeeds exactly once; a
    /// second call is a misuse failure and leaves the cell as it was.
    pub fn init(&mut self, value: T) -> (r: Result<(), MisuseError>)
        ensures
            r is Ok <==> old(self).slot is None,
            old(self).slot is None ==> final(self).slot == Some(value),
            old(self).slot is Some ==> *final(self) == *old(self) && r == Err::<(), MisuseError>(
                MisuseError,
            ),
    {
        if self.slot.is_some() {
            Err(MisuseError)
        } else {
            self.slot = Some(value);
            Ok(())
        }
    }

    /// Run `f` with exclusive access to the handle. The caller provides
    /// the critical section around this call; the cell provides the
    /// before-init check: called before `init`, it fails with the same
    /// misuse error and touches nothing.
    pub fn with_mut<F: FnOnce(T) -> T>(&mut self, f: F) -> (r: Result<(), MisuseError>)
        requires
            old(self).slot matches Some(v) ==> call_requires(f, (v,)),
        ensures
            r is Ok <==> old(self).slot is Some,
            old(self).slot is None ==> *final(self) == *old(self) && r == Err::<(), MisuseError>(
                MisuseError,
            ),
            old(self).slot matches Some(v) ==> final(self).slot matches Some(w) && call_ensures(
                f,
                (v,),
                w,
            ),
    {
        match self.slot.take() {
            Some(value) => {
                self.slot = Some(f(value));
                Ok(())
            },
            None => Err(MisuseError),
        }
    }
}

} // verus!
