//! Components of the fever mechanic that hold no temperature themselves.
use bevy::time::{Timer, TimerMode};
use std::time::Duration;
use vstd::prelude::*;

verus! {

#[verifier::external_type_specification]
#[verifier::external_body]
pub struct ExTimer(Timer);

/// The timer that `Timer::new` makes with a duration of `secs` seconds, in
/// repeating mode when `repeating` holds and in one-shot mode otherwise.
pub uninterp spec fn timer_made(secs: u64, repeating: bool) -> Timer;

/// Calls `Timer::new` with a duration of `secs` whole seconds and the mode that
/// `repeating` selects; the timer depends on these two values alone.
#[verifier::external_body]
fn new_timer(secs: u64, repeating: bool) -> (t: Timer)
    ensures
        t == timer_made(secs, repeating),
{
    Timer::new(Duration::from_secs(secs), if repeating { TimerMode::Repeating } else { TimerMode::Once })
}

/// The interval of the fever effects, in seconds.
pub const FEVER_TICK_SECS: u64 = 1;

/// Makes a unit affected by fever.
#[derive(Debug, Clone, Copy, PartialEq, Eq, Structural)]
pub struct Fever;

/// Marker for units that are currently feverish (temperature above their base).
#[derive(Debug, Clone, Copy, PartialEq, Eq, Structural)]
pub struct Feverish;

/// Timer of the fever source effect: the rate at which a source raises fever.
pub struct FeverSourceTimer(pub Timer);

impl Default for FeverSourceTimer {
    /// A timer that finishes every second and repeats.
    fn default() -> (r: Self)
        ensures
            r.0 == timer_made(FEVER_TICK_SECS, true),
    {
        FeverSourceTimer(new_timer(FEVER_TICK_SECS, true))
    }
}

/// Timer of the fever-over-time effect: the interval at which fever deals damage.
pub struct FeverTimer(pub Timer);

impl Default for FeverTimer {
    /// A timer that finishes every second and repeats.
    fn default() -> (r: Self)
        ensures
            r.0 == timer_made(FEVER_TICK_SECS, true),
    {
        FeverTimer(new_timer(FEVER_TICK_SECS, true))
    }
}

/// The unit with [`Fever`] that a fever source belongs to, by its entity bits.
#[derive(Debug, Clone, Copy, PartialEq, Eq, Structural)]
pub struct FeverSourceOf(pub u64);

/// The fever sources of a unit, by their entity bits.
pub struct FeverSources(Vec<u64>);

impl FeverSources {
    /// The sources, in the order they were related.
    pub closed spec fn spec_sources(&self) -> Seq<u64> {
        self.0@
    }

    /// A unit with the given sources.
    pub fn new(sources: Vec<u64>) -> (r: Self)
        ensures
            r.spec_sources() == sources@,
    {
        FeverSources(sources)
    }

    /// The sources, in the order they were related.
    pub fn as_slice(&self) -> (r: &[u64])
        ensures
            r@ == self.spec_sources(),
    {
        self.0.as_slice()
    }
}

impl Default for FeverSources {
    /// No source.
    fn default() -> (r: Self)
        ensures
            r.spec_sources() == Seq::<u64>::empty(),
    {
        FeverSources(Vec::new())
    }
}

} // verus!
