use rand::rngs::StdRng;
use rand::seq::IteratorRandom;
use rand::Rng;
use vstd::prelude::*;

use crate::houses::{activate_house, activated, houses_after_pick, House};

verus! {

/// rand's seedable generator `StdRng`, carried through as an opaque value.
#[verifier::external_type_specification]
#[verifier::external_body]
pub struct ExStdRng(StdRng);

/// Relies on rand's `Rng::gen_range` over the half-open range `0..bound`: it
/// returns a value of the range, and panics only when the range is empty.
#[verifier::external_body]
fn draw_below(rng: &mut StdRng, bound: u64) -> (r: u64)
    requires
        bound > 0,
    ensures
        r < bound,
{
    rng.gen_range(0..bound)
}

/// Relies on rand's `IteratorRandom::choose` over the indices `0..n`: it
/// returns one of them, and `None` exactly when there is none.
#[verifier::external_body]
fn choose_index(rng: &mut StdRng, n: usize) -> (r: Option<usize>)
    ensures
        r is None <==> n == 0,
        r matches Some(i) ==> i < n,
{
    (0..n).choose(rng)
}

/// The scheduler's state, in nanoseconds: the base interval, the interval of
/// the countdown under way, and the time counted so far.
pub struct SchedulerModel {
    pub base_duration: nat,
    pub duration: nat,
    pub elapsed: nat,
}

/// Counts time down and, each time the countdown runs out, asks for a
/// delivery to one house and starts a countdown of a new random length,
/// less than twice the base interval.
#[derive(Debug)]
pub struct DeliveryScheduler {
    base_duration: u64,
    duration: u64,
    elapsed: u64,
}

impl View for DeliveryScheduler {
    type V = SchedulerModel;

    closed spec fn view(&self) -> SchedulerModel {
        SchedulerModel {
            base_duration: self.base_duration as nat,
            duration: self.duration as nat,
            elapsed: self.elapsed as nat,
        }
    }
}

impl DeliveryScheduler {
    /// The base interval is positive, and twice it is still a `u64`.
    pub open spec fn wf(&self) -> bool {
        0 < self@.base_duration && 2 * self@.base_duration <= u64::MAX
    }

    /// A scheduler whose first countdown lasts `base_duration` nanoseconds.
    pub fn new(base_duration: u64) -> (s: DeliveryScheduler)
        requires
            0 < base_duration <= u64::MAX / 2,
        ensures
            s.wf(),
            s@.base_duration == base_duration,
            s@.duration == base_duration,
            s@.elapsed == 0,
    {
        DeliveryScheduler { base_duration, duration: base_duration, elapsed: 0 }
    }

    pub fn base_duration(&self) -> (r: u64)
        ensures
            r == self@.base_duration,
    {
        self.base_duration
    }

    pub fn duration(&self) -> (r: u64)
        ensures
            r == self@.duration,
    {
        self.duration
    }

    pub fn elapsed(&self) -> (r: u64)
        ensures
            r == self@.elapsed,
    {
        self.elapsed
    }

    /// Counts `delta` more nanoseconds. Returns whether the countdown ran
    /// out, that is whether the time counted reached its interval; it then
    /// starts again from zero, with the same interval until `restart` sets
    /// another.
    pub fn advance(&mut self, delta: u64) -> (expired: bool)
        ensures
            expired == (old(self)@.elapsed + delta >= old(self)@.duration),
            final(self)@.base_duration == old(self)@.base_duration,
            final(self)@.duration == old(self)@.duration,
            final(self)@.elapsed == (if expired { 0 } else { old(self)@.elapsed + delta }),
    {
        let total = self.elapsed.saturating_add(delta);
        if total >= self.duration {
            self.elapsed = 0;
            true
        } else {
            self.elapsed = total;
            false
        }
    }

    /// Sets the interval of the countdown under way to `draw` nanoseconds.
    pub fn restart(&mut self, draw: u64)
        requires
            draw < 2 * old(self)@.base_duration,
        ensures
            final(self)@.base_duration == old(self)@.base_duration,
            final(self)@.duration == draw,
            final(self)@.elapsed == old(self)@.elapsed,
    {
        self.duration = draw;
    }

    /// Counts `delta` more nanoseconds and, when the countdown runs out,
    /// takes `draw` as the next interval and activates the house at `pick`,
    /// if any. Returns whether the countdown ran out.
    pub fn tick_with(&mut self, delta: u64, houses: &mut Vec<House>, draw: u64, pick: Option<usize>) -> (expired: bool)
        requires
            draw < 2 * old(self)@.base_duration,
            pick matches Some(i) ==> i < old(houses)@.len(),
        ensures
            expired == (old(self)@.elapsed + delta >= old(self)@.duration),
            final(self)@.base_duration == old(self)@.base_duration,
            expired ==> final(self)@.elapsed == 0 && final(self)@.duration == draw
                && final(houses)@ == houses_after_pick(old(houses)@, pick),
            !expired ==> final(self)@.elapsed == old(self)@.elapsed + delta && final(self)@.duration
                == old(self)@.duration && final(houses)@ == old(houses)@,
    {
        let expired = self.advance(delta);
        if expired {
            self.restart(draw);
            activate_house(houses, pick);
        }
        expired
    }

    /// Counts `delta` more nanoseconds. When the countdown runs out, it
    /// starts again from zero with an interval drawn from `rng` below twice
    /// the base interval, and one house drawn from `rng`, if there is any,
    /// becomes active (it may be active already). Returns whether the
    /// countdown ran out.
    pub fn tick(&mut self, delta: u64, houses: &mut Vec<House>, rng: &mut StdRng) -> (expired: bool)
        requires
            old(self).wf(),
        ensures
            final(self).wf(),
            expired == (old(self)@.elapsed + delta >= old(self)@.duration),
            final(self)@.base_duration == old(self)@.base_duration,
            expired ==> final(self)@.elapsed == 0 && final(self)@.duration < 2
                * old(self)@.base_duration,
            expired && old(houses)@.len() > 0 ==> exists|i: int|
                0 <= i < old(houses)@.len() && final(houses)@ == old(houses)@.update(
                    i,
                    activated(old(houses)@[i]),
                ),
            expired && old(houses)@.len() == 0 ==> final(houses)@ == old(houses)@,
            !expired ==> final(self)@.elapsed == old(self)@.elapsed + delta && final(self)@.duration
                == old(self)@.duration && final(houses)@ == old(houses)@,
    {
        let expired = self.advance(delta);
        if expired {
            let draw = draw_below(rng, 2 * self.base_duration);
            self.restart(draw);
            let pick = choose_index(rng, houses.len());
            activate_house(houses, pick);
            proof {
                if let Some(i) = pick {
                    assert(0 <= i as int && (i as int) < old(houses)@.len());
                }
            }
        }
        expired
    }
}

} // verus!
