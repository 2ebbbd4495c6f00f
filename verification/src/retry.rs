//! What to do when the store is busy with another writer: try the whole
//! unit of work again after a pause that doubles each time, and give up
//! after a fixed number of attempts.

use vstd::prelude::*;

verus! {

/// The number of attempts a unit of work gets.
pub const MAX_ATTEMPTS: u32 = 6;

/// The pause after the first attempt that found the store busy, in
/// milliseconds.
pub const FIRST_PAUSE_MS: u64 = 25;

/// What follows an attempt that found the store busy.
#[derive(Debug, Clone, Copy, PartialEq, Eq, Structural)]
pub enum Retry {
    /// Pause for this many milliseconds, then make the next attempt.
    After(u64),
    /// Make no further attempt and report the store as busy.
    GiveUp,
}

/// The pause after the attempt of a given number, counted from 1: the first
/// pause after the first attempt, and twice the pause before after each
/// later one.
pub open spec fn pause_after(attempt: nat) -> nat
    decreases attempt,
{
    if attempt <= 1 {
        FIRST_PAUSE_MS as nat
    } else {
        2 * pause_after((attempt - 1) as nat)
    }
}

/// What follows the attempt of a given number, counted from 1, that found
/// the store busy: a pause and another attempt while attempts are left, and
/// the end where the last attempt was made.
pub open spec fn retry_after(attempt: nat) -> Retry {
    if 1 <= attempt < MAX_ATTEMPTS {
        Retry::After(pause_after(attempt) as u64)
    } else {
        Retry::GiveUp
    }
}

/// The pauses grow, and none of them before the last attempt is longer than
/// 32 times the first.
pub proof fn lemma_pause_bounds(attempt: nat)
    requires
        1 <= attempt < MAX_ATTEMPTS,
    ensures
        FIRST_PAUSE_MS <= pause_after(attempt) <= 32 * FIRST_PAUSE_MS,
        attempt + 1 < MAX_ATTEMPTS ==> pause_after(attempt) < pause_after(attempt + 1),
{
    reveal_with_fuel(pause_after, 8);
}

/// What follows the attempt of a given number, counted from 1, that found
/// the store busy.
pub fn after_busy(attempt: u32) -> (next: Retry)
    ensures
        next == retry_after(attempt as nat),
{
    if attempt < 1 || attempt >= MAX_ATTEMPTS {
        return Retry::GiveUp;
    }
    let mut pause: u64 = FIRST_PAUSE_MS;
    let mut made: u32 = 1;
    while made < attempt
        invariant
            1 <= made <= attempt < MAX_ATTEMPTS,
            pause == pause_after(made as nat),
            pause <= 32 * FIRST_PAUSE_MS,
        decreases attempt - made,
    {
        proof {
            lemma_pause_bounds((made + 1) as nat);
        }
        pause = 2 * pause;
        made += 1;
    }
    Retry::After(pause)
}

} // verus!
