//! The reentrancy guard: a single shared flag, `Unlocked -> Locked ->
//! Unlocked`. A guarded operation may call out to externally-controlled code
//! (the token probe), and that code may call back into this instance before
//! the outer call completes; the guard turns such nested entry into the
//! deterministic failure `Reentrancy`. Acquisition is scoped: every guarded
//! operation acquires the guard as its first action and releases it on every
//! exit path, so no path leaves the lock held.

use vstd::prelude::*;

use crate::errors::ContractError;
use crate::shade::{Shade, ShadeView};

verus! {

impl ShadeView {
    /// Transition of `enter`.
    pub open spec fn enter(self) -> (ShadeView, Result<(), ContractError>) {
        if self.locked {
            (self, Err(ContractError::Reentrancy))
        } else {
            (ShadeView { locked: true, ..self }, Ok(()))
        }
    }

    /// Transition of `exit`.
    pub open spec fn exit(self) -> ShadeView {
        ShadeView { locked: false, ..self }
    }
}

impl Shade {
    /// Acquires the guard: fails `Reentrancy` if it is already held, else
    /// transitions to `Locked`. Nothing but the flag changes either way.
    pub fn enter(&mut self) -> (r: Result<(), ContractError>)
        requires
            old(self).wf(),
        ensures
            final(self).wf(),
            final(self)@ == old(self)@.enter().0,
            r == old(self)@.enter().1,
    {
        if self.locked {
            return Err(ContractError::Reentrancy);
        }
        self.locked = true;
        proof {
            assert(self@ =~~= old(self)@.enter().0);
        }
        Ok(())
    }

    /// Releases the guard unconditionally.
    pub fn exit(&mut self)
        requires
            old(self).wf(),
        ensures
            final(self).wf(),
            final(self)@ == old(self)@.exit(),
    {
        self.locked = false;
        proof {
            assert(self@ =~~= old(self)@.exit());
        }
    }
}

} // verus!
