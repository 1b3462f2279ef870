use vstd::prelude::*;

use crate::symbol::{classify, symbol_for, Symbol};

verus! {

/// `elapsed` advanced by `delta` microseconds, held at the largest `u64`
/// rather than wrapping.
pub open spec fn advanced(elapsed: u64, delta: u64) -> u64 {
    if elapsed + delta > u64::MAX {
        u64::MAX
    } else {
        (elapsed + delta) as u64
    }
}

/// The sum of a sequence of durations.
pub open spec fn total(deltas: Seq<u64>) -> nat
    decreases deltas.len(),
{
    if deltas.len() == 0 {
        0
    } else {
        deltas[0] as nat + total(deltas.subrange(1, deltas.len() as int))
    }
}

/// Times the press in progress.
#[derive(Clone, Copy, Debug, PartialEq, Eq, Structural)]
pub struct PressTimer {
    /// Whether the input is held down.
    pub held: bool,
    /// How long it has been held, in microseconds.
    pub elapsed: u64,
}

impl PressTimer {
    /// A timer with the input released.
    pub fn new() -> (r: PressTimer)
        ensures
            !r.held,
            r.elapsed == 0,
    {
        PressTimer { held: false, elapsed: 0 }
    }

    /// The timer once a press begins: held, from zero.
    pub open spec fn spec_started(self) -> PressTimer {
        PressTimer { held: true, elapsed: 0 }
    }

    /// The timer after `delta` microseconds: it counts only while held.
    pub open spec fn spec_ticked(self, delta: u64) -> PressTimer {
        if self.held {
            PressTimer { held: true, elapsed: advanced(self.elapsed, delta) }
        } else {
            self
        }
    }

    /// Begins a press, restarting the count.
    pub fn start(&mut self)
        ensures
            *final(self) == old(self).spec_started(),
    {
        self.held = true;
        self.elapsed = 0;
    }

    /// Lets `delta` microseconds pass.
    pub fn tick(&mut self, delta: u64)
        ensures
            *final(self) == old(self).spec_ticked(delta),
    {
        if self.held {
            self.elapsed = self.elapsed.saturating_add(delta);
        }
    }

    /// Ends the press and classifies it against `threshold`; a release while
    /// nothing is held is ignored.
    pub fn release(&mut self, threshold: u64) -> (r: Option<Symbol>)
        ensures
            old(self).held ==> r == Some(symbol_for(old(self).elapsed, threshold)),
            old(self).held ==> *final(self) == (PressTimer { held: false, elapsed: old(self).elapsed }),
            !old(self).held ==> r is None && *final(self) == *old(self),
    {
        if self.held {
            self.held = false;
            Some(classify(self.elapsed, threshold))
        } else {
            None
        }
    }
}

impl Default for PressTimer {
    fn default() -> (r: PressTimer)
        ensures
            r == (PressTimer { held: false, elapsed: 0 }),
    {
        PressTimer::new()
    }
}

impl Default for PauseTimer {
    fn default() -> (r: PauseTimer)
        ensures
            r == (PauseTimer { armed: false, elapsed: 0 }),
    {
        PauseTimer::new()
    }
}

/// Times the pause since the last release, and fires when it reaches the
/// character gap.
#[derive(Clone, Copy, Debug, PartialEq, Eq, Structural)]
pub struct PauseTimer {
    /// Whether a character is waiting to be closed.
    pub armed: bool,
    /// How long the pause has lasted, in microseconds.
    pub elapsed: u64,
}

impl PauseTimer {
    /// A timer that is not armed.
    pub fn new() -> (r: PauseTimer)
        ensures
            !r.armed,
            r.elapsed == 0,
    {
        PauseTimer { armed: false, elapsed: 0 }
    }

    /// The timer after `delta` microseconds against the gap `gap`, and
    /// whether it fired. It counts only while armed, and disarms as it fires.
    pub open spec fn spec_tick(self, delta: u64, gap: u64) -> (PauseTimer, bool) {
        if self.armed {
            let e = advanced(self.elapsed, delta);
            if e >= gap {
                (PauseTimer { armed: false, elapsed: e }, true)
            } else {
                (PauseTimer { armed: true, elapsed: e }, false)
            }
        } else {
            (self, false)
        }
    }

    /// How many times the timer fires over successive ticks of `deltas`.
    pub open spec fn fire_count(self, deltas: Seq<u64>, gap: u64) -> nat
        decreases deltas.len(),
    {
        if deltas.len() == 0 {
            0
        } else {
            let (next, fired) = self.spec_tick(deltas[0], gap);
            (if fired { 1nat } else { 0nat }) + next.fire_count(
                deltas.subrange(1, deltas.len() as int),
                gap,
            )
        }
    }

    /// Starts timing a pause from zero.
    pub fn arm(&mut self)
        ensures
            final(self).armed,
            final(self).elapsed == 0,
    {
        self.armed = true;
        self.elapsed = 0;
    }

    /// Cancels the pending character boundary.
    pub fn disarm(&mut self)
        ensures
            *final(self) == (PauseTimer { armed: false, elapsed: old(self).elapsed }),
    {
        self.armed = false;
    }

    /// Lets `delta` microseconds pass; returns whether the pause reached `gap`
    /// on this tick.
    pub fn tick(&mut self, delta: u64, gap: u64) -> (fired: bool)
        ensures
            (*final(self), fired) == old(self).spec_tick(delta, gap),
    {
        if self.armed {
            self.elapsed = self.elapsed.saturating_add(delta);
            if self.elapsed >= gap {
                self.armed = false;
                return true;
            }
        }
        false
    }
}

/// A timer that is not armed never fires.
pub proof fn lemma_disarmed_never_fires(t: PauseTimer, deltas: Seq<u64>, gap: u64)
    requires
        !t.armed,
    ensures
        t.fire_count(deltas, gap) == 0,
    decreases deltas.len(),
{
    if deltas.len() > 0 {
        lemma_disarmed_never_fires(t, deltas.subrange(1, deltas.len() as int), gap);
    }
}

/// Over any run of ticks, an armed timer fires at most once, and exactly once
/// when the pause it has counted plus the ticks reaches the gap.
pub proof fn lemma_fires_once(t: PauseTimer, deltas: Seq<u64>, gap: u64)
    requires
        t.armed,
    ensures
        t.fire_count(deltas, gap) == (if deltas.len() > 0 && t.elapsed + total(deltas) >= gap {
            1nat
        } else {
            0nat
        }),
    decreases deltas.len(),
{
    if deltas.len() > 0 {
        let rest = deltas.subrange(1, deltas.len() as int);
        let (next, fired) = t.spec_tick(deltas[0], gap);
        assert(total(deltas) == deltas[0] + total(rest));
        if fired {
            lemma_disarmed_never_fires(next, rest, gap);
        } else {
            assert(next.armed && next.elapsed == t.elapsed + deltas[0]);
            lemma_fires_once(next, rest, gap);
        }
    }
}

} // verus!
