//! Exponential backoff with randomized jitter for the supervised reconnect
//! loop: a non-decreasing sequence of wait durations between a configured
//! minimum and maximum, with an attempt counter, resettable to the minimum.
//!
//! The randomness is supplied by the caller as an entropy word; the generator
//! itself is deterministic in its inputs.

use vstd::prelude::*;

verus! {

/// The configured minimum delay of the supervised loop, one second.
pub const BACKOFF_MIN_MS: u64 = 1000;

/// The configured maximum delay of the supervised loop, five minutes.
pub const BACKOFF_MAX_MS: u64 = 300000;

/// A backoff generator. `base_ms` doubles on each advance until it reaches
/// `max_ms`; the upcoming delay is `base_ms + jitter_ms`, capped at `max_ms`.
#[derive(Debug, Clone, PartialEq, Eq)]
pub struct Backoff {
    pub min_ms: u64,
    pub max_ms: u64,
    pub base_ms: u64,
    pub count: u64,
    pub jitter_ms: u64,
}

impl Backoff {
    /// Well-formedness: positive bounds, base between them, jitter below the
    /// minimum (so that doubling the base always outruns the jitter).
    pub open spec fn wf(self) -> bool {
        &&& 0 < self.min_ms <= self.max_ms
        &&& self.min_ms <= self.base_ms <= self.max_ms
        &&& self.jitter_ms < self.min_ms
    }

    /// The delay the generator will hand out next: the jittered base, capped
    /// at the maximum.
    pub open spec fn spec_delay(self) -> u64 {
        if self.base_ms + self.jitter_ms > self.max_ms {
            self.max_ms
        } else {
            (self.base_ms + self.jitter_ms) as u64
        }
    }

    /// The generator `new` returns.
    pub open spec fn spec_new(min_ms: u64, max_ms: u64, entropy: u64) -> Backoff {
        Backoff {
            min_ms,
            max_ms,
            base_ms: min_ms,
            count: 0,
            jitter_ms: (entropy as int % min_ms as int) as u64,
        }
    }

    /// The generator after one advance: the base doubles (capped at the
    /// maximum), the counter grows, the jitter is drawn anew.
    pub open spec fn spec_advanced(self, entropy: u64) -> Backoff {
        Backoff {
            base_ms: if self.base_ms > self.max_ms / 2 {
                self.max_ms
            } else {
                (2 * self.base_ms) as u64
            },
            count: if self.count < u64::MAX {
                (self.count + 1) as u64
            } else {
                u64::MAX
            },
            jitter_ms: (entropy as int % self.min_ms as int) as u64,
            ..self
        }
    }

    /// A fresh generator at its minimum.
    pub fn new(min_ms: u64, max_ms: u64, entropy: u64) -> (r: Self)
        requires
            0 < min_ms <= max_ms,
        ensures
            r == Self::spec_new(min_ms, max_ms, entropy),
            r.wf(),
    {
        Backoff { min_ms, max_ms, base_ms: min_ms, count: 0, jitter_ms: entropy % min_ms }
    }

    /// A fresh generator with the supervised loop's configuration:
    /// one second up to five minutes.
    pub fn fresh(entropy: u64) -> (r: Self)
        ensures
            r == Self::spec_new(BACKOFF_MIN_MS, BACKOFF_MAX_MS, entropy),
            r.wf(),
    {
        Self::new(BACKOFF_MIN_MS, BACKOFF_MAX_MS, entropy)
    }

    /// How many attempts this generator has seen since it was last reset.
    pub fn count(&self) -> (c: u64)
        ensures
            c == self.count,
    {
        self.count
    }

    /// The upcoming delay, in milliseconds. Querying does not advance the
    /// generator.
    pub fn next_delay(&self) -> (d: u64)
        requires
            self.wf(),
        ensures
            d == self.spec_delay(),
            self.min_ms <= d <= self.max_ms,
    {
        if self.base_ms > self.max_ms - self.jitter_ms {
            self.max_ms
        } else {
            self.base_ms + self.jitter_ms
        }
    }

    /// Advance past the upcoming delay: escalate the base and count one more
    /// attempt. The next delay is at least the one just handed out.
    pub fn advance(&mut self, entropy: u64)
        requires
            old(self).wf(),
        ensures
            *final(self) == old(self).spec_advanced(entropy),
            final(self).wf(),
            final(self).spec_delay() >= old(self).spec_delay(),
    {
        self.base_ms = if self.base_ms > self.max_ms / 2 {
            self.max_ms
        } else {
            2 * self.base_ms
        };
        self.count = if self.count < u64::MAX {
            self.count + 1
        } else {
            u64::MAX
        };
        self.jitter_ms = entropy % self.min_ms;
    }
}

/// Law: under repeated failure the delays escalate monotonically and stay
/// bounded by the configured maximum — the delay after an advance is at
/// least the delay before it, and every delay lies between the minimum and
/// the maximum.
pub proof fn lemma_backoff_escalates(b: Backoff, entropy: u64)
    requires
        b.wf(),
    ensures
        b.spec_advanced(entropy).wf(),
        b.spec_advanced(entropy).spec_delay() >= b.spec_delay(),
        b.min_ms <= b.spec_delay() <= b.max_ms,
        b.min_ms <= b.spec_advanced(entropy).spec_delay() <= b.max_ms,
{
}

/// Law: a reset generator starts again near the configured minimum — its
/// first delay is at least the minimum and below twice the minimum.
pub proof fn lemma_backoff_reset(min_ms: u64, max_ms: u64, entropy: u64)
    requires
        0 < min_ms <= max_ms,
    ensures
        Backoff::spec_new(min_ms, max_ms, entropy).wf(),
        min_ms <= Backoff::spec_new(min_ms, max_ms, entropy).spec_delay() < 2 * min_ms,
{
}

} // verus!
