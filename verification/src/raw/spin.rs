//! Two busy-waiting back-ends: a binary lock and a counting reader-writer
//! lock.

use vstd::prelude::*;
use core::sync::atomic::AtomicBool;
use core::sync::atomic::AtomicUsize;
use core::sync::atomic::Ordering;
use crate::raw::register::{acquired, successor, EXCLUSIVE};
use crate::raw::{Lock, Phase};

verus! {

/// A binary spin lock: one flag, no shared mode. Every request is treated as
/// exclusive.
#[derive(Debug)]
pub struct Mutex(AtomicBool);

/// Where an acquire on the binary lock stands after a round at `phase` that
/// found `found` in the flag: test, then test and set. A claiming round swaps
/// the flag in and holds the lock if it found the flag clear; if not, the
/// acquire watches the flag with plain reads and claims again once it finds
/// the flag clear.
pub open spec fn flag_next(phase: Phase, found: bool) -> Phase {
    match phase {
        Phase::Claim => if found {
            Phase::Watch
        } else {
            Phase::Held
        },
        Phase::Watch => if found {
            Phase::Watch
        } else {
            Phase::Claim
        },
        Phase::Drain | Phase::Held => Phase::Held,
    }
}

/// The rounds of the binary lock: what a round at `phase` can lead to,
/// whatever it finds in the flag.
pub open spec fn flag_round(phase: Phase, next: Phase) -> bool {
    next == flag_next(phase, true) || next == flag_next(phase, false)
}

/// Decides where an acquire on the binary lock stands after a round at
/// `phase` that found `found` in the flag.
pub fn flag_step(phase: Phase, found: bool) -> (next: Phase)
    ensures
        next == flag_next(phase, found),
{
    match phase {
        Phase::Claim => if found {
            Phase::Watch
        } else {
            Phase::Held
        },
        Phase::Watch => if found {
            Phase::Watch
        } else {
            Phase::Claim
        },
        Phase::Drain | Phase::Held => Phase::Held,
    }
}

impl Lock for Mutex {
    open spec fn upgrades() -> bool {
        false
    }

    /// The rounds are the same in both modes.
    open spec fn round(exclusive: bool, phase: Phase, next: Phase) -> bool {
        flag_round(phase, next)
    }

    /// An attempt in either mode can be granted or refused: the flag decides.
    open spec fn answer(exclusive: bool, granted: bool) -> bool {
        true
    }

    /// A hold of either mode is given back by clearing the flag.
    open spec fn gives_back(exclusive: bool) -> bool {
        true
    }

    fn new() -> Self {
        Mutex(AtomicBool::new(false))
    }

    fn lock(&self, exclusive: bool, phase: Phase) -> (next: Phase) {
        match phase {
            Phase::Claim => flag_step(phase, self.0.swap(true, Ordering::Acquire)),
            Phase::Watch => flag_step(phase, self.0.load(Ordering::Relaxed)),
            Phase::Drain | Phase::Held => Phase::Held,
        }
    }

    fn unlock(&self, exclusive: bool) {
        self.0.store(false, Ordering::Release)
    }

    fn try_lock(&self, exclusive: bool) -> (granted: bool) {
        match flag_step(Phase::Claim, self.0.swap(true, Ordering::Acquire)) {
            Phase::Held => true,
            _ => false,
        }
    }
}

/// A counting reader-writer spin lock: one register that holds the exclusive
/// bit and the number of shared holders.
#[derive(Debug)]
pub struct RwLock(AtomicUsize);

/// The rounds of a shared acquire: each one reads the register and, where it
/// shows room and no exclusive holder, tries once to count itself in.
pub open spec fn read_round(phase: Phase, next: Phase) -> bool {
    match phase {
        Phase::Claim | Phase::Watch => next == Phase::Held || next == Phase::Claim,
        Phase::Drain | Phase::Held => next == Phase::Held,
    }
}

/// The rounds of an exclusive acquire: claim, then drain. A claiming round
/// tries to move the register from unlocked to the exclusive bit alone. Once
/// that has happened the acquire reads the register, and holds the lock when
/// it reads back as exactly the exclusive bit.
pub open spec fn write_round(phase: Phase, next: Phase) -> bool {
    match phase {
        Phase::Claim | Phase::Watch => next == Phase::Claim || next == Phase::Drain,
        Phase::Drain => next == Phase::Drain || next == Phase::Held,
        Phase::Held => next == Phase::Held,
    }
}

/// Where an exclusive acquire stands after a round at `phase`. A claiming
/// round goes by `installed`, whether its compare-and-swap moved the register
/// from unlocked to the exclusive bit. A draining round goes by `observed`,
/// the register as it read it. Each looks at its own answer only.
pub open spec fn write_next(phase: Phase, installed: bool, observed: usize) -> Phase {
    match phase {
        Phase::Claim | Phase::Watch => if installed {
            Phase::Drain
        } else {
            Phase::Claim
        },
        Phase::Drain => if observed == EXCLUSIVE {
            Phase::Held
        } else {
            Phase::Drain
        },
        Phase::Held => Phase::Held,
    }
}

/// Decides where an exclusive acquire stands after a round at `phase`, given
/// what the round's compare-and-swap reported or what its read found.
pub fn write_step(phase: Phase, installed: bool, observed: usize) -> (next: Phase)
    ensures
        next == write_next(phase, installed, observed),
        write_round(phase, next),
{
    match phase {
        Phase::Claim | Phase::Watch => if installed {
            Phase::Drain
        } else {
            Phase::Claim
        },
        Phase::Drain => if observed == EXCLUSIVE {
            Phase::Held
        } else {
            Phase::Drain
        },
        Phase::Held => Phase::Held,
    }
}

impl RwLock {
    /// Tries once to move the register from `current` to `new` for an acquire
    /// of that mode, and says whether it did. The only move that is ever
    /// offered to the register is the one that it grants to such an acquire.
    /// A weak attempt may fail though the register holds `current`; it is for
    /// callers that try again.
    fn install(
        &self,
        current: usize,
        new: usize,
        exclusive: bool,
        weak: bool,
    ) -> (installed: bool)
        requires
            acquired(current, exclusive) == Some(new),
    {
        if weak {
            self.0.compare_exchange_weak(
                current,
                new,
                Ordering::SeqCst,
                Ordering::Relaxed,
            ).is_ok()
        } else {
            self.0.compare_exchange(current, new, Ordering::SeqCst, Ordering::Relaxed).is_ok()
        }
    }

    /// One round of a blocking shared acquire that stands at `phase`.
    pub fn read(&self, phase: Phase) -> (next: Phase)
        ensures
            read_round(phase, next),
    {
        match phase {
            Phase::Claim | Phase::Watch => {
                let old = self.0.load(Ordering::Relaxed);
                match successor(old, false) {
                    Some(new) => if self.install(old, new, false, true) {
                        Phase::Held
                    } else {
                        Phase::Claim
                    },
                    None => Phase::Claim,
                }
            },
            Phase::Drain | Phase::Held => Phase::Held,
        }
    }

    /// One round of a blocking exclusive acquire that stands at `phase`.
    pub fn write(&self, phase: Phase) -> (next: Phase)
        ensures
            write_round(phase, next),
    {
        match phase {
            Phase::Claim | Phase::Watch => write_step(
                phase,
                self.install(0, EXCLUSIVE, true, true),
                0,
            ),
            Phase::Drain => write_step(phase, false, self.0.load(Ordering::Relaxed)),
            Phase::Held => Phase::Held,
        }
    }
}

impl Lock for RwLock {
    open spec fn upgrades() -> bool {
        false
    }

    /// An exclusive acquire claims and drains; a shared one counts itself in.
    open spec fn round(exclusive: bool, phase: Phase, next: Phase) -> bool {
        if exclusive {
            write_round(phase, next)
        } else {
            read_round(phase, next)
        }
    }

    /// An attempt in either mode can be granted or refused: the register
    /// decides.
    open spec fn answer(exclusive: bool, granted: bool) -> bool {
        true
    }

    /// A hold of either mode is given back: the exclusive one by clearing the
    /// register, a shared one by counting it out.
    open spec fn gives_back(exclusive: bool) -> bool {
        true
    }

    fn new() -> Self {
        RwLock(AtomicUsize::new(0))
    }

    fn lock(&self, exclusive: bool, phase: Phase) -> (next: Phase) {
        if exclusive {
            self.write(phase)
        } else {
            self.read(phase)
        }
    }

    fn unlock(&self, exclusive: bool) {
        if exclusive {
            self.0.swap(0, Ordering::Release);
        } else {
            self.0.fetch_sub(1, Ordering::SeqCst);
        }
    }

    fn try_lock(&self, exclusive: bool) -> (granted: bool) {
        let old: usize = if exclusive {
            0
        } else {
            self.0.load(Ordering::Relaxed)
        };
        match successor(old, exclusive) {
            Some(new) => self.install(old, new, exclusive, false),
            None => false,
        }
    }
}

} // verus!
