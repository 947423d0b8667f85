//! Tempo estimation from timing-clock ticks.
//!
//! Time is measured in whole microseconds. Each tick updates an exponential
//! moving average of the inter-tick interval with damping factor 3/100; the
//! average is clamped to stay at least one microsecond, so a beats-per-minute
//! value can always be derived from it. A tick count, reset by a Start event,
//! gates emission of the tempo line to once per beat (every 24 ticks, the
//! standard MIDI timing-clock resolution).

use vstd::prelude::*;
use vstd::arithmetic::div_mod::lemma_div_is_ordered;
use vstd::arithmetic::div_mod::lemma_div_multiples_vanish;
use vstd::arithmetic::div_mod::lemma_fundamental_div_mod;
use vstd::arithmetic::div_mod::lemma_fundamental_div_mod_converse;

verus! {

/// Ticks per quarter-note beat of a MIDI timing clock.
pub const TICKS_PER_BEAT: u64 = 24;

/// The seed of the moving average before any tick arrives: the interval of a
/// nominal 120 BPM clock, 60/120/24 seconds in whole microseconds.
pub const SEED_US_PER_TICK: u64 = 20833;

/// The interval between the previous tick at `last` and the current one at
/// `now`, in microseconds; a clock that jumped backwards counts as zero.
pub open spec fn tick_interval(last: int, now: int) -> int {
    if now >= last {
        now - last
    } else {
        0
    }
}

/// One update of the moving average: the new interval `d` weighs 3/100, the
/// old average `s` weighs 97/100, and the result is kept strictly positive.
pub open spec fn ema_next(s: int, d: int) -> int {
    let v = (3 * d + 97 * s) / 100;
    if v < 1 {
        1
    } else {
        v
    }
}

/// The moving average after `n` further ticks, all with interval `d`.
pub open spec fn ema_iter(s: int, d: int, n: nat) -> int
    decreases n,
{
    if n == 0 {
        s
    } else {
        ema_iter(ema_next(s, d), d, (n - 1) as nat)
    }
}

/// The tempo, in tenths of a beat per minute, that an average of `s`
/// microseconds per tick stands for: `60 * 10^7 / (24 * s) = 25000000 / s`.
pub open spec fn bpm_tenths_of(s: int) -> int {
    25000000int / s
}

/// Whether the tick that brought the count to `ticks` emits a tempo line:
/// once per beat, at counts 24, 48, 72 and so on.
pub open spec fn emits_at(ticks: int) -> bool {
    ticks % 24 == 0
}

/// How many of the `n` ticks following a state with tick count `c` emit a
/// tempo line.
pub open spec fn emissions(c: nat, n: nat) -> nat
    decreases n,
{
    if n == 0 {
        0nat
    } else {
        (if emits_at((c + 1) as int) {
            1nat
        } else {
            0nat
        }) + emissions((c + 1) as nat, (n - 1) as nat)
    }
}

/// The tempo estimator: tick count since the last Start, the time of the
/// previous tick, and the smoothed inter-tick interval.
pub struct Tempo {
    /// Timing-clock ticks seen since the last Start event.
    pub ticks: u64,
    /// Elapsed time of the previous tick, in microseconds.
    pub last_tick_us: u64,
    /// Smoothed inter-tick interval, in microseconds; always at least one.
    pub smoothed_us_per_tick: u64,
}

impl Tempo {
    /// The smoothed interval is strictly positive, so a tempo can always be
    /// derived by division.
    pub open spec fn wf(self) -> bool {
        self.smoothed_us_per_tick >= 1
    }

    /// A fresh estimator: no ticks yet, the average seeded at 120 BPM.
    pub fn new() -> (r: Tempo)
        ensures
            r.wf(),
            r.ticks == 0,
            r.last_tick_us == 0,
            r.smoothed_us_per_tick == SEED_US_PER_TICK,
    {
        Tempo { ticks: 0, last_tick_us: 0, smoothed_us_per_tick: SEED_US_PER_TICK }
    }

    /// A Start event resets the tick count; the average and the last tick
    /// time are kept.
    pub fn on_start(&mut self)
        ensures
            *final(self) == (Tempo { ticks: 0, ..*old(self) }),
    {
        self.ticks = 0;
    }

    /// One timing-clock tick at elapsed time `now_us`: the average absorbs
    /// the new interval, the count advances, and the result says whether a
    /// tempo line is due (once per beat).
    pub fn on_tick(&mut self, now_us: u64) -> (emit: bool)
        requires
            old(self).wf(),
            old(self).ticks < u64::MAX,
        ensures
            final(self).wf(),
            final(self).ticks == old(self).ticks + 1,
            final(self).last_tick_us == now_us,
            final(self).smoothed_us_per_tick == ema_next(
                old(self).smoothed_us_per_tick as int,
                tick_interval(old(self).last_tick_us as int, now_us as int),
            ),
            emit == emits_at(final(self).ticks as int),
    {
        let interval: u64 = if now_us >= self.last_tick_us {
            now_us - self.last_tick_us
        } else {
            0
        };
        let wide: u128 = 3 * (interval as u128) + 97 * (self.smoothed_us_per_tick as u128);
        let next_wide: u128 = wide / 100;
        proof {
            assert(wide <= 100 * (u64::MAX as u128));
            lemma_div_is_ordered(wide as int, 100 * (u64::MAX as int), 100);
            lemma_div_multiples_vanish(u64::MAX as int, 100);
        }
        let next: u64 = next_wide as u64;
        self.smoothed_us_per_tick = if next == 0 {
            1
        } else {
            next
        };
        self.last_tick_us = now_us;
        self.ticks = self.ticks + 1;
        self.ticks % TICKS_PER_BEAT == 0
    }

    /// The current tempo estimate, in tenths of a beat per minute.
    pub fn bpm_tenths(&self) -> (r: u64)
        requires
            self.wf(),
        ensures
            r == bpm_tenths_of(self.smoothed_us_per_tick as int),
    {
        25000000 / self.smoothed_us_per_tick
    }
}

/// Convergence of the moving average: under a constant inter-tick interval
/// `d`, the interval `d` itself is a fixed point of the update, and each
/// update moves the average strictly toward `d` from above and monotonically
/// toward `d` from below, never overshooting. The derived tempo at the fixed
/// point is exactly the tempo of the tick stream, `25000000 / d` tenths of a
/// beat per minute.
pub proof fn lemma_tempo_step_toward_interval(s: int, d: int)
    requires
        1 <= s,
        1 <= d,
    ensures
        ema_next(d, d) == d,
        d < s ==> d <= ema_next(s, d) < s,
        s < d ==> s <= ema_next(s, d) <= d,
        bpm_tenths_of(d) == 25000000int / d,
{
    lemma_div_multiples_vanish(d, 100);
    assert(3 * d + 97 * d == 100 * d);
    if d < s {
        assert(3 * d + 97 * s <= 100 * s - 3);
        assert((100 * s - 3) / 100 == s - 1) by {
            lemma_fundamental_div_mod_converse(100 * s - 3, 100, s - 1, 97);
        }
        lemma_div_is_ordered(3 * d + 97 * s, 100 * s - 3, 100);
        assert(100 * d <= 3 * d + 97 * s);
        lemma_div_is_ordered(100 * d, 3 * d + 97 * s, 100);
    }
    if s < d {
        assert(100 * s <= 3 * d + 97 * s <= 100 * d);
        lemma_div_multiples_vanish(s, 100);
        lemma_div_is_ordered(100 * s, 3 * d + 97 * s, 100);
        lemma_div_is_ordered(3 * d + 97 * s, 100 * d, 100);
    }
}

/// Under a constant interval the average, once equal to `d`, stays `d`.
pub proof fn lemma_tempo_holds_interval(d: int, n: nat)
    requires
        1 <= d,
    ensures
        ema_iter(d, d, n) == d,
    decreases n,
{
    if n > 0 {
        lemma_tempo_step_toward_interval(d, d);
        lemma_tempo_holds_interval(d, (n - 1) as nat);
    }
}

/// From above, the average reaches `d` exactly: each tick shrinks the gap by
/// at least one microsecond, so after at most `s - d` constant-interval ticks
/// the average equals the interval.
pub proof fn lemma_tempo_converges_from_above(s: int, d: int, n: nat)
    requires
        1 <= d <= s,
        n >= s - d,
    ensures
        ema_iter(s, d, n) == d,
    decreases n,
{
    if s == d {
        lemma_tempo_holds_interval(d, n);
    } else {
        lemma_tempo_step_toward_interval(s, d);
        lemma_tempo_converges_from_above(ema_next(s, d), d, (n - 1) as nat);
    }
}

/// From below, the average rises monotonically and never overshoots: after
/// any number of constant-interval ticks it still lies between the seed and
/// the interval.
pub proof fn lemma_tempo_bounded_from_below(s: int, d: int, n: nat)
    requires
        1 <= s <= d,
    ensures
        s <= ema_iter(s, d, n) <= d,
    decreases n,
{
    if n > 0 {
        lemma_tempo_step_toward_interval(s, d);
        if s < d {
            lemma_tempo_bounded_from_below(ema_next(s, d), d, (n - 1) as nat);
        } else {
            lemma_tempo_holds_interval(d, n);
        }
    }
}

/// Emission gating: the tick that brings the count to a multiple of 24 emits
/// and no other does, so `n` ticks following a count of `c` emit exactly
/// `(c + n) / 24 - c / 24` tempo lines.
pub proof fn lemma_emission_count(c: nat, n: nat)
    ensures
        emissions(c, n) == (c + n) / 24 - c / 24,
    decreases n,
{
    if n > 0 {
        lemma_emission_count((c + 1) as nat, (n - 1) as nat);
        assert((c + 1) / 24 == c / 24 + (if emits_at((c + 1) as int) {
            1int
        } else {
            0int
        })) by {
            lemma_fundamental_div_mod(c as int, 24);
            let q = c as int / 24;
            let r = c as int % 24;
            if r == 23 {
                lemma_fundamental_div_mod_converse((c + 1) as int, 24, q + 1, 0);
            } else {
                lemma_fundamental_div_mod_converse((c + 1) as int, 24, q, r + 1);
            }
        }
    }
}

/// After a Start event the count is zero, so a stream of `n` ticks emits
/// exactly `n / 24` tempo lines, at tick counts 24, 48, 72 and so on.
pub proof fn lemma_emissions_after_start(n: nat)
    ensures
        emissions(0, n) == n / 24,
{
    lemma_emission_count(0, n);
}

} // verus!
