use vstd::prelude::*;

verus! {

/// The longest pause between two subscription attempts, in milliseconds.
pub const MAX_RECONNECT_DELAY_MS: u64 = 30_000;

/// The pause before the attempt that follows `failures` consecutive failed
/// ones: the first retry is immediate, later ones wait 250 ms, doubling each
/// time, up to the maximum.
pub open spec fn backoff_ms(failures: nat) -> nat
    decreases failures,
{
    if failures == 0 {
        0
    } else if failures == 1 {
        250
    } else {
        let d = 2 * backoff_ms((failures - 1) as nat);
        if d > MAX_RECONNECT_DELAY_MS {
            MAX_RECONNECT_DELAY_MS as nat
        } else {
            d
        }
    }
}

proof fn lemma_backoff_bounded(failures: nat)
    ensures
        backoff_ms(failures) <= MAX_RECONNECT_DELAY_MS,
    decreases failures,
{
    if failures > 1 {
        lemma_backoff_bounded((failures - 1) as nat);
    }
}

/// Failures are counted up to this many; by then the pause is at its maximum.
pub const MAX_COUNTED_FAILURES: u32 = 32;

/// The retry state of one subscription: how many attempts in a row failed.
pub struct Reconnect {
    pub failures: u32,
}

impl Reconnect {
    pub fn new() -> (r: Reconnect)
        ensures
            r.failures == 0,
    {
        Reconnect { failures: 0 }
    }

    /// Records a failed attempt and returns how long to wait before the next.
    pub fn on_failure(&mut self) -> (delay_ms: u64)
        ensures
            delay_ms == backoff_ms(old(self).failures as nat),
            delay_ms <= MAX_RECONNECT_DELAY_MS,
            final(self).failures == if old(self).failures < MAX_COUNTED_FAILURES {
                old(self).failures + 1
            } else {
                old(self).failures as int
            },
    {
        let n = self.failures;
        let mut delay: u64 = 0;
        let mut i: u32 = 0;
        while i < n
            invariant
                i <= n,
                n == old(self).failures,
                *self == *old(self),
                delay == backoff_ms(i as nat),
                delay <= MAX_RECONNECT_DELAY_MS,
            decreases n - i,
        {
            proof {
                lemma_backoff_bounded((i + 1) as nat);
            }
            if i == 0 {
                delay = 250;
            } else if 2 * delay > MAX_RECONNECT_DELAY_MS {
                delay = MAX_RECONNECT_DELAY_MS;
            } else {
                delay = 2 * delay;
            }
            i = i + 1;
        }
        if self.failures < MAX_COUNTED_FAILURES {
            self.failures = self.failures + 1;
        }
        delay
    }

    /// Records that the subscription delivered a message: the next failure
    /// is retried at once again.
    pub fn on_message(&mut self)
        ensures
            final(self).failures == 0,
    {
        self.failures = 0;
    }
}

} // verus!
