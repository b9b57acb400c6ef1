//! Histories of a lock: which guards are alive after a run of acquires and
//! releases, and what the lock state then shows.
//!
//! Every change of the lock state is one atomic operation, so whatever the
//! threads do, the state goes through its values in one order. A history
//! lists the operations in that order. The first part of this file follows
//! the register of the counting lock, the second the flag of the binary lock.
//!
//! A guard counts as alive from the operation that grants its hold to the
//! operation that releases it. An acquire that looks at the lock state and
//! then changes it is taken as one step, made when the change goes through:
//! it is the state found then that decides.

use vstd::prelude::*;
use crate::raw::register::{
    acquired, coherent, is_exclusive, released, shared_count, EXCLUSIVE, MAX_SHARED,
};

verus! {

/// One change of the lock state.
pub enum Event {
    /// An acquire was granted and a guard of that mode came to life.
    Acquire { exclusive: bool },
    /// A guard of that mode was destroyed and released its hold.
    Release { exclusive: bool },
    /// A shared guard asked for an upgrade and the back-end refused it.
    Refusal,
}

/// How the number of live guards of one mode changes with an event.
pub open spec fn delta(event: Event, exclusive: bool) -> int {
    match event {
        Event::Acquire { exclusive: mode } => if mode == exclusive { 1 } else { 0 },
        Event::Release { exclusive: mode } => if mode == exclusive { -1 } else { 0 },
        Event::Refusal => 0,
    }
}

/// The number of guards of one mode that are alive after `history`.
pub open spec fn live(history: Seq<Event>, exclusive: bool) -> int
    decreases history.len(),
{
    if history.len() == 0 {
        0
    } else {
        live(history.drop_last(), exclusive) + delta(history.last(), exclusive)
    }
}

/// What an event makes of the register.
pub open spec fn apply(reg: usize, event: Event) -> usize {
    match event {
        Event::Acquire { exclusive } => match acquired(reg, exclusive) {
            Some(next) => next,
            None => reg,
        },
        Event::Release { exclusive } => released(reg, exclusive),
        Event::Refusal => reg,
    }
}

/// The register after `history`, starting unlocked.
pub open spec fn register(history: Seq<Event>) -> usize
    decreases history.len(),
{
    if history.len() == 0 {
        0
    } else {
        apply(register(history.drop_last()), history.last())
    }
}

/// Whether `event` can follow `history`: an acquire only where the register
/// grants it, a release only by destroying a guard that is alive, a refused
/// upgrade only for a shared guard that is alive.
pub open spec fn enabled(history: Seq<Event>, event: Event) -> bool {
    match event {
        Event::Acquire { exclusive } => acquired(register(history), exclusive) is Some,
        Event::Release { exclusive } => live(history, exclusive) > 0,
        Event::Refusal => live(history, false) > 0,
    }
}

/// Whether `history` can happen: each of its events was enabled when it came.
pub open spec fn possible(history: Seq<Event>) -> bool
    decreases history.len(),
{
    history.len() == 0 || (possible(history.drop_last()) && enabled(
        history.drop_last(),
        history.last(),
    ))
}

/// The register that stands for `shared` shared guards and `exclusive`
/// exclusive ones.
pub open spec fn encoding(shared: int, exclusive: int) -> int {
    if exclusive > 0 {
        shared + EXCLUSIVE
    } else {
        shared
    }
}

/// The register always says exactly which guards are alive: there is at most
/// one exclusive guard, never together with a shared one, no more shared
/// guards than the register can count, and the register is their encoding.
pub proof fn lemma_register_counts_guards(history: Seq<Event>)
    requires
        possible(history),
    ensures
        0 <= live(history, true) <= 1,
        0 <= live(history, false) <= MAX_SHARED,
        live(history, true) == 1 ==> live(history, false) == 0,
        register(history) == encoding(live(history, false), live(history, true)),
    decreases history.len(),
{
    if history.len() > 0 {
        lemma_register_counts_guards(history.drop_last());
    }
}

/// The register never shows the exclusive bit together with a count, and
/// never a count that is too large.
pub proof fn lemma_register_stays_coherent(history: Seq<Event>)
    requires
        possible(history),
    ensures
        coherent(register(history)),
{
    lemma_register_counts_guards(history);
}

/// Mutual exclusion: while an exclusive guard is alive, no shared guard and no
/// second exclusive guard is alive, and the register shows the exclusive bit
/// alone.
pub proof fn lemma_mutual_exclusion(history: Seq<Event>)
    requires
        possible(history),
        live(history, true) > 0,
    ensures
        live(history, true) == 1,
        live(history, false) == 0,
        register(history) == EXCLUSIVE,
{
    lemma_register_counts_guards(history);
}

/// Shared concurrency: the count in the register is the number of shared
/// guards that are alive, and the exclusive bit is set exactly while an
/// exclusive guard is alive.
pub proof fn lemma_shared_count_is_live_guards(history: Seq<Event>)
    requires
        possible(history),
    ensures
        shared_count(register(history)) == live(history, false),
        is_exclusive(register(history)) <==> live(history, true) == 1,
{
    lemma_register_counts_guards(history);
}

/// Any number of shared guards up to `MAX_SHARED` can be alive at once:
/// after `n` shared acquires in a row the register counts `n`.
pub proof fn lemma_shared_guards_coexist(n: nat)
    requires
        n <= MAX_SHARED,
    ensures
        possible(Seq::new(n, |i: int| Event::Acquire { exclusive: false })),
        live(Seq::new(n, |i: int| Event::Acquire { exclusive: false }), false) == n,
        register(Seq::new(n, |i: int| Event::Acquire { exclusive: false })) == n,
    decreases n,
{
    let history = Seq::new(n, |i: int| Event::Acquire { exclusive: false });
    if n > 0 {
        let before = Seq::new((n - 1) as nat, |i: int| Event::Acquire { exclusive: false });
        lemma_shared_guards_coexist((n - 1) as nat);
        assert(history.drop_last() =~= before);
    }
}

/// Balanced release: once every guard has been destroyed the register is
/// exactly unlocked again.
pub proof fn lemma_balanced_release(history: Seq<Event>)
    requires
        possible(history),
        live(history, false) == 0,
        live(history, true) == 0,
    ensures
        register(history) == 0,
{
    lemma_register_counts_guards(history);
}

/// A release undoes the acquire that it belongs to.
pub proof fn lemma_release_undoes_acquire(reg: usize, exclusive: bool)
    requires
        acquired(reg, exclusive) is Some,
    ensures
        released(acquired(reg, exclusive)->0, exclusive) == reg,
{
}

/// An exclusive request is granted if and only if no guard of either mode is
/// alive.
pub proof fn lemma_exclusive_granted_iff_idle(history: Seq<Event>)
    requires
        possible(history),
    ensures
        acquired(register(history), true) is Some <==> live(history, false) == 0 && live(
            history,
            true,
        ) == 0,
{
    lemma_register_counts_guards(history);
}

/// A shared request is granted if and only if no exclusive guard is alive,
/// as long as the register can count one more shared guard.
pub proof fn lemma_shared_granted_iff_no_writer(history: Seq<Event>)
    requires
        possible(history),
        live(history, false) < MAX_SHARED,
    ensures
        acquired(register(history), false) is Some <==> live(history, true) == 0,
{
    lemma_register_counts_guards(history);
}

/// A refused upgrade changes nothing: the same guards are alive after it, the
/// register is the same, and it still counts every shared guard.
pub proof fn lemma_refused_upgrade_changes_nothing(history: Seq<Event>)
    requires
        possible(history),
        live(history, false) > 0,
    ensures
        possible(history.push(Event::Refusal)),
        register(history.push(Event::Refusal)) == register(history),
        live(history.push(Event::Refusal), false) == live(history, false),
        live(history.push(Event::Refusal), true) == live(history, true),
        shared_count(register(history.push(Event::Refusal))) == live(history, false),
{
    assert(history.push(Event::Refusal).drop_last() =~= history);
    lemma_register_counts_guards(history);
}

/// The flag of the binary lock after `history`, starting clear. The lock has
/// no shared mode: a granted acquire of either mode sets the flag, a release
/// clears it.
pub open spec fn flag(history: Seq<Event>) -> bool
    decreases history.len(),
{
    history.len() > 0 && match history.last() {
        Event::Acquire { exclusive } => true,
        Event::Release { exclusive } => false,
        Event::Refusal => flag(history.drop_last()),
    }
}

/// Whether `event` can follow `history` on the binary lock: an acquire only
/// while the flag is clear, a release only by destroying a guard that is
/// alive, a refused upgrade only for a shared guard that is alive.
pub open spec fn flag_enabled(history: Seq<Event>, event: Event) -> bool {
    match event {
        Event::Acquire { exclusive } => !flag(history),
        Event::Release { exclusive } => live(history, exclusive) > 0,
        Event::Refusal => live(history, false) > 0,
    }
}

/// Whether `history` can happen on the binary lock.
pub open spec fn flag_possible(history: Seq<Event>) -> bool
    decreases history.len(),
{
    history.len() == 0 || (flag_possible(history.drop_last()) && flag_enabled(
        history.drop_last(),
        history.last(),
    ))
}

/// The flag always says exactly whether a guard is alive, and there is never
/// more than one guard, of whichever mode.
pub proof fn lemma_flag_counts_guards(history: Seq<Event>)
    requires
        flag_possible(history),
    ensures
        0 <= live(history, true),
        0 <= live(history, false),
        live(history, true) + live(history, false) <= 1,
        flag(history) <==> live(history, true) + live(history, false) == 1,
    decreases history.len(),
{
    if history.len() > 0 {
        lemma_flag_counts_guards(history.drop_last());
    }
}

/// Mutual exclusion on the binary lock: a guard that is alive is the only
/// one.
pub proof fn lemma_flag_mutual_exclusion(history: Seq<Event>, exclusive: bool)
    requires
        flag_possible(history),
        live(history, exclusive) > 0,
    ensures
        live(history, exclusive) == 1,
        live(history, !exclusive) == 0,
        flag(history),
{
    lemma_flag_counts_guards(history);
}

/// Balanced release on the binary lock: once every guard has been destroyed
/// the flag is clear again.
pub proof fn lemma_flag_balanced_release(history: Seq<Event>)
    requires
        flag_possible(history),
        live(history, false) == 0,
        live(history, true) == 0,
    ensures
        !flag(history),
{
    lemma_flag_counts_guards(history);
}

/// A request to the binary lock, of either mode, is granted if and only if no
/// guard is alive.
pub proof fn lemma_flag_granted_iff_idle(history: Seq<Event>, exclusive: bool)
    requires
        flag_possible(history),
    ensures
        flag_enabled(history, Event::Acquire { exclusive }) <==> live(history, false) == 0
            && live(history, true) == 0,
{
    lemma_flag_counts_guards(history);
}

/// A refused upgrade changes nothing on the binary lock either.
pub proof fn lemma_flag_refused_upgrade_changes_nothing(history: Seq<Event>)
    requires
        flag_possible(history),
        live(history, false) > 0,
    ensures
        flag_possible(history.push(Event::Refusal)),
        flag(history.push(Event::Refusal)) == flag(history),
        live(history.push(Event::Refusal), false) == live(history, false),
        live(history.push(Event::Refusal), true) == live(history, true),
{
    assert(history.push(Event::Refusal).drop_last() =~= history);
}

} // verus!
