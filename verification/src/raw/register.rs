//! The register of the counting reader-writer lock.
//!
//! One machine word holds the whole lock state: its top bit says that an
//! exclusive holder is present, the bits below count the shared holders.

use vstd::prelude::*;

verus! {

/// The top bit of the register: an exclusive holder is present.
pub const EXCLUSIVE: usize = usize::MAX / 2 + 1;

/// The largest number of shared holders that the register is allowed to count.
/// The count stops one short of all low bits set, so that one more increment
/// can never carry into the top bit.
pub const MAX_SHARED: usize = usize::MAX / 2 - 1;

/// Whether the register records an exclusive holder.
pub open spec fn is_exclusive(reg: usize) -> bool {
    reg >= EXCLUSIVE
}

/// The number of shared holders that the register records.
pub open spec fn shared_count(reg: usize) -> nat {
    if reg >= EXCLUSIVE {
        (reg - EXCLUSIVE) as nat
    } else {
        reg as nat
    }
}

/// Whether the register is one that the lock can show: it never records an
/// exclusive holder together with shared ones, and never counts past
/// `MAX_SHARED`.
pub open spec fn coherent(reg: usize) -> bool {
    reg <= MAX_SHARED || reg == EXCLUSIVE
}

/// The register that a granted acquire installs in place of `reg`, or `None`
/// where the request has to wait: a shared request while an exclusive holder
/// is present or the count is full, an exclusive request while anything is
/// held.
pub open spec fn acquired(reg: usize, exclusive: bool) -> Option<usize> {
    if exclusive {
        if reg == 0 {
            Some(EXCLUSIVE)
        } else {
            None
        }
    } else {
        if reg < MAX_SHARED {
            Some((reg + 1) as usize)
        } else {
            None
        }
    }
}

/// The register that a release leaves in place of `reg`: an exclusive release
/// clears it, a shared release subtracts one, wrapping as the machine does.
pub open spec fn released(reg: usize, exclusive: bool) -> usize {
    if exclusive {
        0
    } else if reg == 0 {
        usize::MAX
    } else {
        (reg - 1) as usize
    }
}

/// Decides what an acquire that has observed `observed` may install in its
/// place.
pub fn successor(observed: usize, exclusive: bool) -> (next: Option<usize>)
    ensures
        next == acquired(observed, exclusive),
{
    if exclusive {
        if observed == 0 {
            Some(EXCLUSIVE)
        } else {
            None
        }
    } else if observed < MAX_SHARED {
        Some(observed + 1)
    } else {
        None
    }
}

/// What a coherent register says about the lock.
pub enum State {
    /// Nothing is held.
    Unlocked,
    /// That many shared holders, at least one, and no exclusive one.
    Shared(nat),
    /// One exclusive holder and no shared one.
    Exclusive,
}

/// The state that a register stands for.
pub open spec fn state(reg: usize) -> State
    recommends
        coherent(reg),
{
    if reg == 0 {
        State::Unlocked
    } else if reg >= EXCLUSIVE {
        State::Exclusive
    } else {
        State::Shared(reg as nat)
    }
}

/// The state that follows a granted acquire, or `None` where the request has
/// to wait.
pub open spec fn state_acquired(from: State, exclusive: bool) -> Option<State> {
    match from {
        State::Unlocked => Some(
            if exclusive {
                State::Exclusive
            } else {
                State::Shared(1)
            },
        ),
        State::Shared(n) => if !exclusive && n < MAX_SHARED {
            Some(State::Shared(n + 1))
        } else {
            None
        },
        State::Exclusive => None,
    }
}

/// The state that follows the release of a hold of that mode, or `None` where
/// no such hold exists.
pub open spec fn state_released(from: State, exclusive: bool) -> Option<State> {
    match from {
        State::Unlocked => None,
        State::Shared(n) => if exclusive {
            None
        } else if n == 1 {
            Some(State::Unlocked)
        } else {
            Some(State::Shared((n - 1) as nat))
        },
        State::Exclusive => if exclusive {
            Some(State::Unlocked)
        } else {
            None
        },
    }
}

/// The register moves as the states do: an acquire is granted exactly where
/// the state machine has a step for it, and a granted acquire or the release
/// of an existing hold leaves a coherent register that stands for the state
/// that the step leads to.
pub proof fn lemma_register_follows_states(reg: usize, exclusive: bool)
    requires
        coherent(reg),
    ensures
        acquired(reg, exclusive) is Some <==> state_acquired(state(reg), exclusive) is Some,
        acquired(reg, exclusive) matches Some(next) ==> coherent(next) && Some(state(next))
            == state_acquired(state(reg), exclusive),
        state_released(state(reg), exclusive) matches Some(after) ==> coherent(
            released(reg, exclusive),
        ) && state(released(reg, exclusive)) == after,
{
}

/// The top bit is the exclusive flag and the bits below it are the count: a
/// register is the sum of the two, and the count alone never reaches the top
/// bit.
pub proof fn lemma_layout(reg: usize)
    ensures
        2 * EXCLUSIVE == usize::MAX + 1,
        is_exclusive(reg) <==> reg & EXCLUSIVE != 0,
        shared_count(reg) == reg & !EXCLUSIVE,
        shared_count(reg) < EXCLUSIVE,
        reg == shared_count(reg) + if is_exclusive(reg) { EXCLUSIVE as int } else { 0 },
{
    let top = EXCLUSIVE;
    let low = shared_count(reg) as usize;
    assert({
        &&& (reg >= top) <==> (reg & top != 0)
        &&& low == reg & !top
    }) by (bit_vector)
        requires
            usize::BITS == 64 ==> top == 0x8000_0000_0000_0000u64,
            usize::BITS == 32 ==> top == 0x8000_0000u32,
            low == if reg >= top { (reg - top) as usize } else { reg },
    ;
}

} // verus!
