//! Back-off strategies: how long to wait before the next attempt.
//! Durations are in nanoseconds.

use vstd::prelude::*;

verus! {

/// A source of successive delays. A strategy says, of each of its states,
/// which delays a tick may give and which state follows, and which state a
/// reset may leave.
pub trait Strategy: Sized {
    /// Whether a tick in state `self` may give delay `delay` and leave the
    /// strategy in state `after`. A strategy that does not say allows any.
    open spec fn ticks_to(self, delay: u128, after: Self) -> bool {
        true
    }

    /// Whether a reset in state `self` may leave the strategy in state
    /// `after`. A strategy that does not say allows any.
    open spec fn resets_to(self, after: Self) -> bool {
        true
    }

    /// The next delay.
    fn tick(&mut self) -> (r: u128)
        ensures
            old(self).ticks_to(r, *final(self)),
    ;

    /// Starts the sequence of delays over.
    fn reset(&mut self)
        ensures
            old(self).resets_to(*final(self)),
    ;
}

/// Waits by a strategy's delays.
pub struct Backoff<S> {
    pub strategy: S,
}

impl<S: Strategy> Backoff<S> {
    /// Waits by the delays of `strategy`.
    pub fn new(strategy: S) -> (r: Backoff<S>)
        ensures
            r.strategy == strategy,
    {
        Backoff { strategy }
    }

    /// The delay to wait before the next attempt: the strategy's next tick.
    pub fn next_delay(&mut self) -> (r: u128)
        ensures
            old(self).strategy.ticks_to(r, final(self).strategy),
    {
        self.strategy.tick()
    }

    /// Starts the sequence of delays over: the strategy is reset.
    pub fn reset(&mut self)
        ensures
            old(self).strategy.resets_to(final(self).strategy),
    {
        self.strategy.reset();
    }
}

/// A strategy whose delays are never shorter than `min`.
pub struct Min<S> {
    pub min: u128,
    pub inner: S,
}

impl<S> Min<S> {
    /// The delays of `inner`, but at least `min`.
    pub fn new(min: u128, inner: S) -> (r: Min<S>)
        ensures
            r.min == min,
            r.inner == inner,
    {
        Min { min, inner }
    }
}

impl<S: Strategy> Strategy for Min<S> {
    /// A tick is the inner strategy's tick, raised to `min`.
    open spec fn ticks_to(self, delay: u128, after: Self) -> bool {
        &&& after.min == self.min
        &&& exists|t: u128|
            #[trigger] self.inner.ticks_to(t, after.inner) && delay == (if t >= self.min {
                t
            } else {
                self.min
            })
    }

    /// A reset resets the inner strategy.
    open spec fn resets_to(self, after: Self) -> bool {
        after.min == self.min && self.inner.resets_to(after.inner)
    }

    fn tick(&mut self) -> (r: u128)
        ensures
            r >= old(self).min,
    {
        let ghost before = self.inner;
        let t = self.inner.tick();
        assert(before.ticks_to(t, self.inner));
        at_least(t, self.min)
    }

    fn reset(&mut self) {
        self.inner.reset();
    }
}

/// A strategy whose delays are never longer than `max`.
pub struct Max<S> {
    pub max: u128,
    pub inner: S,
}

impl<S> Max<S> {
    /// The delays of `inner`, but at most `max`.
    pub fn new(max: u128, inner: S) -> (r: Max<S>)
        ensures
            r.max == max,
            r.inner == inner,
    {
        Max { max, inner }
    }
}

impl<S: Strategy> Strategy for Max<S> {
    /// A tick is the inner strategy's tick, lowered to `max`.
    open spec fn ticks_to(self, delay: u128, after: Self) -> bool {
        &&& after.max == self.max
        &&& exists|t: u128|
            #[trigger] self.inner.ticks_to(t, after.inner) && delay == (if t <= self.max {
                t
            } else {
                self.max
            })
    }

    /// A reset resets the inner strategy.
    open spec fn resets_to(self, after: Self) -> bool {
        after.max == self.max && self.inner.resets_to(after.inner)
    }

    fn tick(&mut self) -> (r: u128)
        ensures
            r <= old(self).max,
    {
        let ghost before = self.inner;
        let t = self.inner.tick();
        assert(before.ticks_to(t, self.inner));
        at_most(t, self.max)
    }

    fn reset(&mut self) {
        self.inner.reset();
    }
}

/// The larger of a delay and a floor.
pub fn at_least(t: u128, min: u128) -> (r: u128)
    ensures
        r == (if t >= min {
            t
        } else {
            min
        }),
{
    if t >= min {
        t
    } else {
        min
    }
}

/// The smaller of a delay and a ceiling.
pub fn at_most(t: u128, max: u128) -> (r: u128)
    ensures
        r == (if t <= max {
            t
        } else {
            max
        }),
{
    if t <= max {
        t
    } else {
        max
    }
}

} // verus!
