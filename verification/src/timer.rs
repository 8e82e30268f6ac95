//! Countdown timers over nanoseconds.

use vstd::prelude::*;

verus! {

/// What a countdown does once its duration has elapsed.
#[derive(Clone, Copy, Debug, PartialEq, Eq, Structural)]
pub enum TimerMode {
    /// Stops at its duration and stays finished until it is reset.
    Once,
    /// Wraps round and keeps counting; finished only on the tick that wrapped.
    Repeating,
}

/// The state of a countdown as plain numbers, all times in nanoseconds.
pub struct CountdownModel {
    pub duration: nat,
    pub elapsed: nat,
    pub mode: TimerMode,
    pub finished: bool,
    pub just_finished: bool,
}

impl CountdownModel {
    /// A countdown never holds more elapsed time than its duration.
    pub open spec fn valid(self) -> bool {
        self.elapsed <= self.duration
    }

    /// A countdown of `duration` that has not started.
    pub open spec fn fresh(duration: nat, mode: TimerMode) -> CountdownModel {
        CountdownModel { duration, elapsed: 0, mode, finished: false, just_finished: false }
    }

    /// The state after `delta` more nanoseconds.
    ///
    /// A finished one-shot countdown stays where it is. Otherwise the time is
    /// added; on reaching the duration a one-shot countdown stops there and a
    /// repeating one keeps the remainder.
    pub open spec fn ticked(self, delta: nat) -> CountdownModel {
        let total = self.elapsed + delta;
        if self.mode == TimerMode::Once && self.finished {
            CountdownModel { just_finished: false, ..self }
        } else if total < self.duration {
            CountdownModel { elapsed: total, finished: false, just_finished: false, ..self }
        } else {
            CountdownModel {
                elapsed: if self.mode == TimerMode::Once {
                    self.duration
                } else if self.duration == 0 {
                    0
                } else {
                    total % self.duration
                },
                finished: true,
                just_finished: true,
                ..self
            }
        }
    }

    /// The state after a reset: nothing elapsed, not finished.
    pub open spec fn rewound(self) -> CountdownModel {
        CountdownModel { elapsed: 0, finished: false, just_finished: false, ..self }
    }
}

/// A countdown in nanoseconds, one-shot or repeating.
#[derive(Clone, Copy, Debug)]
pub struct Countdown {
    duration: u64,
    elapsed: u64,
    mode: TimerMode,
    finished: bool,
    just_finished: bool,
}

impl View for Countdown {
    type V = CountdownModel;

    closed spec fn view(&self) -> CountdownModel {
        CountdownModel {
            duration: self.duration as nat,
            elapsed: self.elapsed as nat,
            mode: self.mode,
            finished: self.finished,
            just_finished: self.just_finished,
        }
    }
}

impl Countdown {
    #[verifier::type_invariant]
    spec fn well_formed(self) -> bool {
        self.elapsed <= self.duration
    }

    /// A countdown of `duration` nanoseconds that has not started.
    pub fn new(duration: u64, mode: TimerMode) -> (r: Countdown)
        ensures
            r@ == CountdownModel::fresh(duration as nat, mode),
        no_unwind
    {
        Countdown { duration, elapsed: 0, mode, finished: false, just_finished: false }
    }

    /// Advances the countdown by `delta` nanoseconds.
    pub fn tick(&mut self, delta: u64)
        ensures
            final(self)@ == old(self)@.ticked(delta as nat),
            final(self)@.valid(),
        no_unwind
    {
        proof {
            use_type_invariant(&*self);
        }
        if self.mode == TimerMode::Once && self.finished {
            self.just_finished = false;
        } else if delta < self.duration - self.elapsed {
            self.elapsed = self.elapsed + delta;
            self.finished = false;
            self.just_finished = false;
        } else {
            // The duration is reached: `over` is how far past it we are.
            let over: u64 = delta - (self.duration - self.elapsed);
            let next: u64 = if self.mode == TimerMode::Once {
                self.duration
            } else if self.duration == 0 {
                0
            } else {
                over % self.duration
            };
            proof {
                let total = old(self).elapsed as int + delta as int;
                let d = self.duration as int;
                if self.mode == TimerMode::Repeating && d > 0 {
                    assert(total == over as int + d);
                    assert(total % d == (over as int) % d) by {
                        vstd::arithmetic::div_mod::lemma_mod_add_multiples_vanish(over as int, d);
                    }
                }
            }
            self.elapsed = next;
            self.finished = true;
            self.just_finished = true;
        }
    }

    /// Sets the countdown back to its start.
    pub fn reset(&mut self)
        ensures
            final(self)@ == old(self)@.rewound(),
        no_unwind
    {
        self.elapsed = 0;
        self.finished = false;
        self.just_finished = false;
    }

    /// Whether the duration has been reached.
    pub fn finished(&self) -> (r: bool)
        ensures
            r == self@.finished,
        no_unwind
    {
        self.finished
    }

    /// Whether the duration was reached on the latest tick.
    pub fn just_finished(&self) -> (r: bool)
        ensures
            r == self@.just_finished,
        no_unwind
    {
        self.just_finished
    }

    /// The nanoseconds counted so far.
    pub fn elapsed(&self) -> (r: u64)
        ensures
            r == self@.elapsed,
            self@.valid(),
        no_unwind
    {
        proof {
            use_type_invariant(self);
        }
        self.elapsed
    }

    /// The nanoseconds this countdown runs for.
    pub fn duration(&self) -> (r: u64)
        ensures
            r == self@.duration,
        no_unwind
    {
        self.duration
    }

    /// Whether the countdown stops or wraps at its duration.
    pub fn mode(&self) -> (r: TimerMode)
        ensures
            r == self@.mode,
        no_unwind
    {
        self.mode
    }
}

/// Ticking keeps the elapsed time within the duration, and a one-shot
/// countdown is finished as soon as the time ticked since its start adds up
/// to its duration.
pub proof fn law_tick_bounded(m: CountdownModel, delta: nat)
    requires
        m.valid(),
    ensures
        m.ticked(delta).valid(),
        m.mode == TimerMode::Once && !m.finished ==> (m.ticked(delta).finished <==> m.elapsed
            + delta >= m.duration),
        m.mode == TimerMode::Once && m.finished ==> m.ticked(delta).finished,
{
    if m.mode == TimerMode::Repeating && m.duration > 0 {
        vstd::arithmetic::div_mod::lemma_mod_bound((m.elapsed + delta) as int, m.duration as int);
    }
}

} // verus!
