use vstd::prelude::*;
use vstd::arithmetic::div_mod::{lemma_div_is_ordered, lemma_div_multiples_vanish};
use crate::geometry::{FRACTION_ONE, min_int};

verus! {

/// Nanoseconds in a millisecond.
pub const NANOS_PER_MILLI: u128 = 1_000_000;

/// A moment, in nanoseconds on the clock that frames are drawn against.
#[derive(Clone, Copy, Debug, PartialEq, Eq, Structural)]
pub struct Timestamp {
    pub nanos: u128,
}

/// The nanoseconds from `earlier` to `later`, or 0 where `later` comes first.
pub open spec fn nanos_between(earlier: Timestamp, later: Timestamp) -> int {
    if later.nanos >= earlier.nanos {
        later.nanos - earlier.nanos
    } else {
        0
    }
}

/// A length of time given in milliseconds, in nanoseconds.
pub open spec fn millis_as_nanos(millis: u64) -> int {
    millis * NANOS_PER_MILLI
}

impl Timestamp {
    /// The nanoseconds since `earlier`, or 0 where `earlier` lies after this moment.
    pub fn saturating_nanos_since(&self, earlier: Timestamp) -> (d: u128)
        ensures
            d == nanos_between(earlier, *self),
    {
        if self.nanos >= earlier.nanos {
            self.nanos - earlier.nanos
        } else {
            0
        }
    }

    /// The moment `millis` milliseconds before this one, where the clock reaches that
    /// far back.
    pub fn checked_sub_millis(&self, millis: u64) -> (r: Option<Timestamp>)
        ensures
            r == (if self.nanos >= millis_as_nanos(millis) {
                Some(Timestamp { nanos: (self.nanos - millis_as_nanos(millis)) as u128 })
            } else {
                None
            }),
    {
        let span: u128 = millis as u128 * NANOS_PER_MILLI;
        if self.nanos >= span {
            Some(Timestamp { nanos: self.nanos - span })
        } else {
            None
        }
    }
}

/// How far an animation that began at `started_at` and lasts `duration_ms` has got at
/// `now`, as a fraction of `FRACTION_ONE` rounded down: 0 at the start, `FRACTION_ONE`
/// once the duration has passed, and `FRACTION_ONE` at once for a zero duration.
pub open spec fn animation_delta(started_at: Timestamp, duration_ms: u64, now: Timestamp) -> int {
    if duration_ms == 0 {
        FRACTION_ONE as int
    } else {
        min_int(
            FRACTION_ONE as int,
            nanos_between(started_at, now) * FRACTION_ONE / millis_as_nanos(duration_ms),
        )
    }
}

/// The eased form of a fraction (clamped to `0..=FRACTION_ONE` first): a cubic ease-out,
/// `1 - (1 - delta)^3`, with the cube rounded down.
pub open spec fn eased(delta: int) -> int {
    let d = if delta < 0 {
        0
    } else if delta > FRACTION_ONE {
        FRACTION_ONE as int
    } else {
        delta
    };
    let rest = FRACTION_ONE - d;
    FRACTION_ONE - rest * rest * rest / (FRACTION_ONE as int * FRACTION_ONE as int)
}

/// How far an animation that began at `started_at` and lasts `duration_ms` has got at
/// `now`, as a fraction of `FRACTION_ONE`.
pub fn cursor_animation_delta(started_at: Timestamp, duration_ms: u64, now: Timestamp) -> (delta:
    u64)
    ensures
        delta == animation_delta(started_at, duration_ms, now),
        delta <= FRACTION_ONE,
{
    if duration_ms == 0 {
        return FRACTION_ONE;
    }
    let elapsed: u128 = now.saturating_nanos_since(started_at);
    let span: u128 = duration_ms as u128 * NANOS_PER_MILLI;
    let ghost one: int = FRACTION_ONE as int;
    if elapsed >= span {
        proof {
            lemma_div_is_ordered(span * one, elapsed * one, span as int);
            lemma_div_multiples_vanish(one, span as int);
            assert(span * one <= elapsed * one) by (nonlinear_arith)
                requires
                    span <= elapsed,
                    one > 0,
            ;
        }
        FRACTION_ONE
    } else {
        assert(elapsed * one < span * one) by (nonlinear_arith)
            requires
                elapsed < span,
                one > 0,
        ;
        assert(span * one < 0x1_0000_0000_0000_0000_0000_0000_0000_0000) by (nonlinear_arith)
            requires
                span <= 0xffff_ffff_ffff_ffff * 1_000_000,
                one == 0x1_0000_0000,
        ;
        let scaled: u128 = elapsed * FRACTION_ONE as u128;
        let fraction: u128 = scaled / span;
        proof {
            lemma_div_is_ordered(scaled as int, span * one, span as int);
            lemma_div_multiples_vanish(one, span as int);
        }
        assert(fraction <= FRACTION_ONE);
        fraction as u64
    }
}

/// The eased form of an animation fraction: quick at first, slowing towards the end.
pub fn ease_cursor_delta(delta: u64) -> (e: u64)
    ensures
        e == eased(delta as int),
        e <= FRACTION_ONE,
{
    let d: u128 = if delta > FRACTION_ONE { FRACTION_ONE as u128 } else { delta as u128 };
    let rest: u128 = FRACTION_ONE as u128 - d;
    assert(rest * rest <= 0x1_0000_0000 * 0x1_0000_0000 && rest * rest * rest <= 0x1_0000_0000
        * 0x1_0000_0000 * 0x1_0000_0000) by (nonlinear_arith)
        requires
            rest <= 0x1_0000_0000,
    ;
    let square: u128 = rest * rest;
    let cube: u128 = square * rest;
    let scale: u128 = FRACTION_ONE as u128 * FRACTION_ONE as u128;
    let shrunk: u128 = cube / scale;
    proof {
        lemma_div_is_ordered(cube as int, scale * 0x1_0000_0000, scale as int);
        lemma_div_multiples_vanish(0x1_0000_0000, scale as int);
    }
    (FRACTION_ONE as u128 - shrunk) as u64
}

} // verus!
