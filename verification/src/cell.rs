//! The resource cell: a slot that holds at most one transmit handle and is filled once.

use vstd::prelude::*;

verus! {

/// The slot already holds a handle.
#[derive(Clone, Copy, Debug, PartialEq, Eq, Structural)]
pub struct AlreadyInitialized;

/// What a one-time step answers: it fails exactly when it was taken before.
pub open spec fn once_only(taken: bool) -> Result<(), AlreadyInitialized> {
    if taken {
        Err(AlreadyInitialized)
    } else {
        Ok(())
    }
}

/// A slot after an attempt to fill it with `value`: an empty slot takes the value, a
/// filled one keeps what it has.
pub open spec fn filled_once<T>(before: Option<T>, value: T) -> Option<T> {
    if before is Some {
        before
    } else {
        Some(value)
    }
}

/// A slot goes from empty to filled and no further: once filled, it answers every later
/// attempt with `AlreadyInitialized` and keeps what the first attempt put there. This
/// holds of the handle in the cell and of the threshold of the logger alike: whatever is
/// installed or started a second time fails and changes nothing.
pub proof fn lemma_filled_once_is_final<T>(before: Option<T>, first: T, second: T)
    ensures
        filled_once(before, first) is Some,
        once_only(filled_once(before, first) is Some) == Err::<(), AlreadyInitialized>(
            AlreadyInitialized,
        ),
        filled_once(filled_once(before, first), second) == filled_once(before, first),
        before is None ==> filled_once(before, first) == Some(first),
{
}

/// A slot for the transmit handle `H`. It starts empty, is filled at most once and is
/// never emptied again. Whoever holds `&mut` to the cell holds the handle alone.
pub struct TransmitCell<H> {
    slot: Option<H>,
}

impl<H> View for TransmitCell<H> {
    type V = Option<H>;

    /// The handle in the slot, if there is one.
    closed spec fn view(&self) -> Option<H> {
        self.slot
    }
}

impl<H> TransmitCell<H> {
    /// An empty cell.
    pub fn new() -> (cell: Self)
        ensures
            cell@ is None,
    {
        TransmitCell { slot: None }
    }

    /// Whether a handle has been installed.
    pub fn is_populated(&self) -> (b: bool)
        ensures
            b == (self@ is Some),
    {
        self.slot.is_some()
    }

    /// Installs `handle` in an empty cell. A populated cell is left as it is and the
    /// call fails: the handle that came first stays.
    pub fn initialize(&mut self, handle: H) -> (r: Result<(), AlreadyInitialized>)
        ensures
            r == once_only(old(self)@ is Some),
            final(self)@ == filled_once(old(self)@, handle),
    {
        if self.slot.is_some() {
            Err(AlreadyInitialized)
        } else {
            self.slot = Some(handle);
            Ok(())
        }
    }

    /// Runs `action` on the handle, with exclusive access for the length of the call.
    /// On an empty cell `action` is not run and nothing changes. On a populated cell the
    /// handle afterwards is what `action` left of the handle before, and the cell stays
    /// populated.
    pub fn with_transmit<F: FnOnce(&mut H)>(&mut self, action: F)
        requires
            old(self)@ is Some ==> forall|h: &mut H|
                *h == old(self)@->0 ==> call_requires(action, (h,)),
        ensures
            old(self)@ is None ==> final(self)@ is None,
            old(self)@ is Some ==> exists|h: &mut H|
                *h == old(self)@->0 && #[trigger] call_ensures(action, (h,), ())
                    && final(self)@ == Some(*final(h)),
    {
        match &mut self.slot {
            Some(handle) => {
                action(handle);
            },
            None => {},
        }
    }
}

} // verus!
