//! Lock back-ends and the interface they share.

use vstd::prelude::*;

pub mod history;
pub mod register;
pub mod spin;

verus! {

/// How far a blocking acquire has come.
///
/// A blocking acquire is a run of rounds. Each round makes one attempt on the
/// lock and says where the acquire stands after it; the caller repeats rounds,
/// pausing between them as it sees fit, until the phase is `Held`.
#[derive(Clone, Copy, Debug, PartialEq, Eq, Structural)]
pub enum Phase {
    /// Nothing has been taken: the next round tries to take the lock.
    Claim,
    /// Nothing has been taken, and the lock was seen busy: the next round
    /// only reads the lock state, and goes back to claiming once it looks
    /// free.
    Watch,
    /// The lock has been taken, and no later request can get in: the next
    /// round only reads the lock state, and holds the lock once every
    /// earlier holder is gone.
    Drain,
    /// The lock is held in the requested mode.
    Held,
}

/// What a lock back-end has to offer.
///
/// The mode flag `exclusive` tells an exclusive request from a shared one.
/// Any number of shared holds may be granted at once. An exclusive hold is
/// granted only while nothing is held, and shuts out every other request until
/// it is released. A back-end is free to treat every request as exclusive.
///
/// Each back-end says in `round`, `answer` and `gives_back` what its
/// operations can come to. Code that is generic over the back-end knows
/// nothing else of them, so what it states over them it can only have from
/// the request that it really made: in that mode, at that phase, with that
/// answer.
pub trait Lock: Sized {
    /// Whether this back-end can turn a shared hold into an exclusive one.
    spec fn upgrades() -> bool;

    /// Whether a round of a blocking acquire in that mode that stands at
    /// `phase` can answer `next`.
    spec fn round(exclusive: bool, phase: Phase, next: Phase) -> bool;

    /// Whether one attempt to take the lock in that mode can be answered with
    /// `granted`.
    spec fn answer(exclusive: bool, granted: bool) -> bool;

    /// Whether this back-end takes back a hold of that mode.
    spec fn gives_back(exclusive: bool) -> bool;

    /// An unlocked lock.
    fn new() -> Self;

    /// One round of a blocking acquire that stands at `phase`. A caller starts
    /// at `Phase::Claim` and hands each result to the next round; the lock is
    /// held once a round answers `Phase::Held`.
    fn lock(&self, exclusive: bool, phase: Phase) -> (next: Phase)
        ensures
            Self::round(exclusive, phase, next),
    ;

    /// Gives back a hold that was granted in the same mode.
    fn unlock(&self, exclusive: bool)
        ensures
            Self::gives_back(exclusive),
    ;

    /// One attempt to take the lock, without waiting. Says whether the hold
    /// was granted.
    fn try_lock(&self, exclusive: bool) -> (granted: bool)
        ensures
            Self::answer(exclusive, granted),
    ;

    /// Tries to turn a shared hold into an exclusive one in a single step.
    /// Says whether it did; if not, the shared hold stands as before. A
    /// back-end that does not override this never upgrades.
    fn try_upgrade(&self) -> (promoted: bool)
        ensures
            promoted ==> Self::upgrades(),
    {
        false
    }
}

} // verus!
