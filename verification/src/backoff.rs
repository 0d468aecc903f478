//! The delay between two connection attempts of one connect cycle.
//!
//! The delay starts at one second and doubles after every failure. Once doubling
//! would pass 32 seconds it starts over at one second, so the delays form the
//! repeating sawtooth 1, 2, 4, 8, 16, 32, 1, 2, ...

use vstd::prelude::*;

verus! {

/// The longest delay, in seconds, between two attempts.
pub const MAX_DELAY_SECONDS: u64 = 32;

/// The delay that follows `delay`: twice as long, or one second again where
/// twice as long would be more than the maximum.
pub open spec fn next_delay(delay: nat) -> nat {
    if 2 * delay > MAX_DELAY_SECONDS {
        1
    } else {
        2 * delay
    }
}

/// The delay, in seconds, that follows the failure number `failures` of a connect
/// cycle, the first failure being number 0.
pub open spec fn sawtooth_delay(failures: nat) -> nat {
    let step = failures % 6;
    if step == 0 {
        1
    } else if step == 1 {
        2
    } else if step == 2 {
        4
    } else if step == 3 {
        8
    } else if step == 4 {
        16
    } else {
        32
    }
}

/// The backoff state of one connect cycle.
pub struct Backoff {
    delay_seconds: u64,
}

impl Backoff {
    #[verifier::type_invariant]
    spec fn in_range(self) -> bool {
        1 <= self.delay_seconds <= MAX_DELAY_SECONDS
    }

    /// The delay, in seconds, that the next failure will be followed by.
    pub closed spec fn delay(self) -> nat {
        self.delay_seconds as nat
    }

    /// The backoff state at the start of a connect cycle.
    pub fn new() -> (fresh: Backoff)
        ensures
            fresh.delay() == 1,
    {
        Backoff { delay_seconds: 1 }
    }

    /// The delay, in seconds, that the next failure will be followed by.
    pub fn delay_seconds(&self) -> (seconds: u64)
        ensures
            seconds == self.delay(),
            1 <= seconds <= MAX_DELAY_SECONDS,
    {
        proof {
            use_type_invariant(self);
        }
        self.delay_seconds
    }

    /// Records a failed attempt: returns the number of seconds to wait before the
    /// next attempt and moves on to the delay after it.
    pub fn fail(&mut self) -> (wait: u64)
        ensures
            wait == old(self).delay(),
            1 <= wait <= MAX_DELAY_SECONDS,
            final(self).delay() == next_delay(old(self).delay()),
    {
        proof {
            use_type_invariant(&*self);
        }
        let wait: u64 = self.delay_seconds;
        let doubled: u64 = wait * 2;
        if doubled > MAX_DELAY_SECONDS {
            self.delay_seconds = 1;
        } else {
            self.delay_seconds = doubled;
        }
        wait
    }
}

/// Doubling with the reset walks along the sawtooth: a fresh backoff waits the
/// sawtooth's first delay, and the delay after any delay of the sawtooth is the
/// sawtooth's next one.
pub proof fn lemma_next_delay_follows_sawtooth(failures: nat)
    ensures
        sawtooth_delay(0) == 1,
        next_delay(sawtooth_delay(failures)) == sawtooth_delay(failures + 1),
{
}

/// Every delay of the sawtooth lies between one second and the maximum, and the
/// sawtooth repeats after six failures.
pub proof fn lemma_sawtooth_bounded_and_periodic(failures: nat)
    ensures
        1 <= sawtooth_delay(failures) <= MAX_DELAY_SECONDS,
        sawtooth_delay(failures + 6) == sawtooth_delay(failures),
{
}

} // verus!
