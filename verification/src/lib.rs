//! A container that guards a value behind an exchangeable spin lock.
//!
//! The container pairs a value with a lock back-end. Access goes through
//! guards: a shared guard while the back-end grants a shared hold, an
//! exclusive guard while it grants the exclusive one. A guard gives its hold
//! back when it is released, and only then.
//!
//! Nothing here waits in a loop. A blocking acquire is handed out as a
//! `Wait` or `WaitMut` that the caller polls, round by round, until it
//! yields the guard.

use vstd::prelude::*;
use crate::raw::{Lock, Phase};

pub mod raw;

verus! {

/// A value behind a lock.
pub struct RwLock<T: ?Sized, L: Lock> {
    lock: L,
    valu: T,
}

/// Shared access to a guarded value. Any number of these may exist at once.
pub struct Guard<'a, T: ?Sized, L: Lock> {
    lock: &'a L,
    valu: &'a T,
}

/// Exclusive access to a guarded value. While one exists, no other guard of
/// the same container does, so whoever holds it is alone with the value.
pub struct GuardMut<'a, T: ?Sized, L: Lock> {
    lock: &'a L,
    valu: &'a T,
}

/// A blocking shared acquire that is under way. It holds nothing until a
/// poll yields the guard.
pub struct Wait<'a, T: ?Sized, L: Lock> {
    lock: &'a L,
    valu: &'a T,
    phase: Phase,
}

/// A blocking exclusive acquire that is under way. Poll it to the end: once
/// it has reached `Phase::Drain` the lock is taken in its name, and stays so
/// if the acquire is given up.
pub struct WaitMut<'a, T: ?Sized, L: Lock> {
    lock: &'a L,
    valu: &'a T,
    phase: Phase,
}

impl<T, L: Lock> RwLock<T, L> {
    /// Wraps `x` with a fresh, unlocked back-end.
    pub fn new(x: T) -> (made: Self)
        ensures
            *made.value() == x,
    {
        Self { lock: L::new(), valu: x }
    }
}

impl<T: ?Sized, L: Lock> RwLock<T, L> {
    /// The guarded value.
    pub closed spec fn value(&self) -> &T {
        &self.valu
    }

    /// The back-end that decides who may hold a guard.
    pub closed spec fn backend(&self) -> L {
        self.lock
    }

    /// Starts a blocking acquire of shared access. Poll the result until it
    /// yields the guard.
    pub fn lock(&self) -> (wait: Wait<'_, T, L>)
        ensures
            wait.value() == self.value(),
            wait.backend() == self.backend(),
            wait.phase() == Phase::Claim,
    {
        Wait { lock: &self.lock, valu: &self.valu, phase: Phase::Claim }
    }

    /// Starts a blocking acquire of exclusive access. Poll the result until
    /// it yields the guard.
    pub fn lock_mut(&self) -> (wait: WaitMut<'_, T, L>)
        ensures
            wait.value() == self.value(),
            wait.backend() == self.backend(),
            wait.phase() == Phase::Claim,
    {
        WaitMut { lock: &self.lock, valu: &self.valu, phase: Phase::Claim }
    }

    /// Takes shared access if the back-end grants it at once, and `None` if
    /// it does not.
    pub fn try_lock(&self) -> (taken: Option<Guard<'_, T, L>>)
        ensures
            L::answer(false, taken is Some),
            taken matches Some(guard) ==> guard.value() == self.value() && guard.backend()
                == self.backend(),
    {
        let granted = self.lock.try_lock(false);
        self.lend(granted)
    }

    /// Takes exclusive access if the back-end grants it at once, and `None`
    /// if it does not.
    pub fn try_lock_mut(&self) -> (taken: Option<GuardMut<'_, T, L>>)
        ensures
            L::answer(true, taken is Some),
            taken matches Some(guard) ==> guard.value() == self.value() && guard.backend()
                == self.backend(),
    {
        let granted = self.lock.try_lock(true);
        self.lend_mut(granted)
    }

    /// The shared guard that goes with the back-end's answer to one attempt:
    /// a guard on this container if the hold was granted, nothing if not.
    fn lend(&self, granted: bool) -> (taken: Option<Guard<'_, T, L>>)
        ensures
            granted <==> taken is Some,
            taken matches Some(guard) ==> guard.value() == self.value() && guard.backend()
                == self.backend(),
    {
        if granted {
            Some(Guard { lock: &self.lock, valu: &self.valu })
        } else {
            None
        }
    }

    /// The exclusive guard that goes with the back-end's answer to one
    /// attempt: a guard on this container if the hold was granted, nothing if
    /// not.
    fn lend_mut(&self, granted: bool) -> (taken: Option<GuardMut<'_, T, L>>)
        ensures
            granted <==> taken is Some,
            taken matches Some(guard) ==> guard.value() == self.value() && guard.backend()
                == self.backend(),
    {
        if granted {
            Some(GuardMut { lock: &self.lock, valu: &self.valu })
        } else {
            None
        }
    }
}

impl<'a, T: ?Sized, L: Lock> Wait<'a, T, L> {
    /// The value that the acquire is after.
    pub closed spec fn value(&self) -> &T {
        self.valu
    }

    /// The back-end that the acquire waits for.
    pub closed spec fn backend(&self) -> L {
        *self.lock
    }

    /// Where the acquire stands.
    pub closed spec fn phase(&self) -> Phase {
        self.phase
    }

    /// Runs one round of the acquire. Yields the guard once the back-end
    /// holds the lock for it, and otherwise the acquire to poll again.
    pub fn poll(self) -> (polled: Result<Guard<'a, T, L>, Wait<'a, T, L>>)
        ensures
            polled is Ok ==> L::round(false, self.phase(), Phase::Held),
            polled matches Err(wait) ==> L::round(false, self.phase(), wait.phase()),
            polled matches Ok(guard) ==> guard.value() == self.value() && guard.backend()
                == self.backend(),
            polled matches Err(wait) ==> wait.value() == self.value() && wait.backend()
                == self.backend() && wait.phase() != Phase::Held,
    {
        let next = self.lock.lock(false, self.phase);
        self.settle(next)
    }

    /// What a round leaves behind, given the phase that the back-end
    /// answered: the guard if the lock is held, the acquire at the new phase
    /// if not.
    fn settle(self, next: Phase) -> (polled: Result<Guard<'a, T, L>, Wait<'a, T, L>>)
        ensures
            next == Phase::Held <==> polled is Ok,
            polled matches Ok(guard) ==> guard.value() == self.value() && guard.backend()
                == self.backend(),
            polled matches Err(wait) ==> wait.value() == self.value() && wait.backend()
                == self.backend() && wait.phase() == next,
    {
        match next {
            Phase::Held => Ok(Guard { lock: self.lock, valu: self.valu }),
            _ => Err(Wait { lock: self.lock, valu: self.valu, phase: next }),
        }
    }
}

impl<'a, T: ?Sized, L: Lock> WaitMut<'a, T, L> {
    /// The value that the acquire is after.
    pub closed spec fn value(&self) -> &T {
        self.valu
    }

    /// The back-end that the acquire waits for.
    pub closed spec fn backend(&self) -> L {
        *self.lock
    }

    /// Where the acquire stands.
    pub closed spec fn phase(&self) -> Phase {
        self.phase
    }

    /// Runs one round of the acquire. Yields the guard once the back-end
    /// holds the lock for it, and otherwise the acquire to poll again.
    pub fn poll(self) -> (polled: Result<GuardMut<'a, T, L>, WaitMut<'a, T, L>>)
        ensures
            polled is Ok ==> L::round(true, self.phase(), Phase::Held),
            polled matches Err(wait) ==> L::round(true, self.phase(), wait.phase()),
            polled matches Ok(guard) ==> guard.value() == self.value() && guard.backend()
                == self.backend(),
            polled matches Err(wait) ==> wait.value() == self.value() && wait.backend()
                == self.backend() && wait.phase() != Phase::Held,
    {
        let next = self.lock.lock(true, self.phase);
        self.settle(next)
    }

    /// What a round leaves behind, given the phase that the back-end
    /// answered: the guard if the lock is held, the acquire at the new phase
    /// if not.
    fn settle(self, next: Phase) -> (polled: Result<GuardMut<'a, T, L>, WaitMut<'a, T, L>>)
        ensures
            next == Phase::Held <==> polled is Ok,
            polled matches Ok(guard) ==> guard.value() == self.value() && guard.backend()
                == self.backend(),
            polled matches Err(wait) ==> wait.value() == self.value() && wait.backend()
                == self.backend() && wait.phase() == next,
    {
        match next {
            Phase::Held => Ok(GuardMut { lock: self.lock, valu: self.valu }),
            _ => Err(WaitMut { lock: self.lock, valu: self.valu, phase: next }),
        }
    }
}

impl<'a, T: ?Sized, L: Lock> Guard<'a, T, L> {
    /// The value that the guard gives access to.
    pub closed spec fn value(&self) -> &T {
        self.valu
    }

    /// The back-end that granted the hold.
    pub closed spec fn backend(&self) -> L {
        *self.lock
    }

    /// Gives the shared hold back to the back-end and ends the access.
    pub fn release(self)
        ensures
            L::gives_back(false),
    {
        self.lock.unlock(false)
    }

    /// Tries to turn shared access into exclusive access without letting go
    /// in between. Where the back-end upgrades the hold, the exclusive guard
    /// takes the place of this one. Where it does not, this guard comes back
    /// as it was: nothing was released and nothing acquired.
    pub fn try_upgrade(self) -> (turned: Result<GuardMut<'a, T, L>, Guard<'a, T, L>>)
        ensures
            turned is Ok ==> L::upgrades(),
            turned matches Ok(guard) ==> guard.value() == self.value() && guard.backend()
                == self.backend(),
            turned matches Err(guard) ==> guard == self,
    {
        let promoted = self.lock.try_upgrade();
        self.promote(promoted)
    }

    /// What an upgrade attempt leaves behind, given the back-end's answer.
    fn promote(self, promoted: bool) -> (turned: Result<GuardMut<'a, T, L>, Guard<'a, T, L>>)
        ensures
            promoted <==> turned is Ok,
            turned matches Ok(guard) ==> guard.value() == self.value() && guard.backend()
                == self.backend(),
            turned matches Err(guard) ==> guard == self,
    {
        if promoted {
            Ok(GuardMut { lock: self.lock, valu: self.valu })
        } else {
            Err(self)
        }
    }
}

impl<'a, T: ?Sized, L: Lock> core::ops::Deref for Guard<'a, T, L> {
    type Target = T;

    /// The guarded value, to read.
    fn deref(&self) -> (value: &T)
        ensures
            value == self.value(),
    {
        self.valu
    }
}

impl<'a, T: ?Sized, L: Lock> GuardMut<'a, T, L> {
    /// The value that the guard gives access to.
    pub closed spec fn value(&self) -> &T {
        self.valu
    }

    /// The back-end that granted the hold.
    pub closed spec fn backend(&self) -> L {
        *self.lock
    }

    /// Gives the exclusive hold back to the back-end and ends the access.
    pub fn release(self)
        ensures
            L::gives_back(true),
    {
        self.lock.unlock(true)
    }
}

impl<'a, T: ?Sized, L: Lock> core::ops::Deref for GuardMut<'a, T, L> {
    type Target = T;

    /// The guarded value.
    fn deref(&self) -> (value: &T)
        ensures
            value == self.value(),
    {
        self.valu
    }
}

} // verus!
