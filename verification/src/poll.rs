//! The polling loop as a state machine: it is told what the overflow
//! indicator read, and answers with what to do next.
//!
//! The loop has two states, told apart by one boolean phase. Each overflow
//! that it observes is answered once: the indicator is cleared, the two lines
//! are driven to the pair that belongs to the current phase, and the phase
//! flips. An indicator that reads clear changes nothing.

use vstd::prelude::*;
use crate::output::{set_pair, spec_set_pair, Levels, Line, PairWrite};
use crate::timer::{TimerOp, TimerRegisters};

verus! {

/// What the loop does after one read of the overflow indicator.
#[derive(Clone, Copy, Debug, PartialEq, Eq, Structural)]
pub enum PollAction {
    /// The indicator was clear: read it again.
    KeepWaiting,
    /// The indicator was set: clear it, then perform the pair write.
    ClearThenWrite(PairWrite),
}

/// The loop's state: the phase, `false` at entry.
#[derive(Clone, Copy, Debug)]
pub struct PollLoop {
    phase: bool,
}

/// The pair write that answers an overflow observed in the given phase: in
/// phase `false` line two goes high and line one low, in phase `true` the
/// lines are swapped.
pub open spec fn pair_for(phase: bool) -> PairWrite {
    if phase {
        spec_set_pair(Line::One)
    } else {
        spec_set_pair(Line::Two)
    }
}

/// One transition: the next phase and the action, from the current phase and
/// what the overflow indicator read.
pub open spec fn step(phase: bool, overflow_pending: bool) -> (bool, PollAction) {
    if overflow_pending {
        (!phase, PollAction::ClearThenWrite(pair_for(phase)))
    } else {
        (phase, PollAction::KeepWaiting)
    }
}

impl View for PollLoop {
    type V = bool;

    /// The phase.
    closed spec fn view(&self) -> bool {
        self.phase
    }
}

impl PollLoop {
    /// The loop at entry, in phase `false`.
    pub fn new() -> (entered: PollLoop)
        ensures
            entered@ == false,
    {
        PollLoop { phase: false }
    }

    /// The current phase.
    pub fn phase(&self) -> (phase: bool)
        ensures
            phase == self@,
    {
        self.phase
    }

    /// Takes one read of the overflow indicator and makes the transition.
    pub fn poll(&mut self, overflow_pending: bool) -> (action: PollAction)
        ensures
            (final(self)@, action) == step(old(self)@, overflow_pending),
    {
        if overflow_pending {
            let write = if self.phase {
                set_pair(Line::One, Line::Two)
            } else {
                set_pair(Line::Two, Line::One)
            };
            self.phase = !self.phase;
            PollAction::ClearThenWrite(write)
        } else {
            PollAction::KeepWaiting
        }
    }
}

impl PollAction {
    /// The timer registers after the action.
    pub open spec fn timer_after(self, timer: TimerRegisters) -> TimerRegisters {
        match self {
            PollAction::KeepWaiting => timer,
            PollAction::ClearThenWrite(_) => timer.after(TimerOp::ClearUpdate),
        }
    }

    /// The line levels after the action.
    pub open spec fn levels_after(self, levels: Levels) -> Levels {
        match self {
            PollAction::KeepWaiting => levels,
            PollAction::ClearThenWrite(write) => levels.after(write),
        }
    }

    /// Carries the action out on the register model: the overflow indicator
    /// is cleared first, the pair write follows.
    pub fn perform(self, timer: &mut TimerRegisters, levels: &mut Levels)
        ensures
            *final(timer) == self.timer_after(*old(timer)),
            *final(levels) == self.levels_after(*old(levels)),
    {
        match self {
            PollAction::KeepWaiting => {},
            PollAction::ClearThenWrite(write) => {
                timer.apply(TimerOp::ClearUpdate);
                levels.apply(write);
            },
        }
    }
}

/// The phase after a run of reads of the overflow indicator, taken first to
/// last from the phase `start`.
pub open spec fn phase_after(start: bool, reads: Seq<bool>) -> bool
    decreases reads.len(),
{
    if reads.len() == 0 {
        start
    } else {
        step(phase_after(start, reads.drop_last()), reads.last()).0
    }
}

/// The pair writes that a run of reads calls for, in the order in which they
/// are made.
pub open spec fn writes_during(start: bool, reads: Seq<bool>) -> Seq<PairWrite>
    decreases reads.len(),
{
    if reads.len() == 0 {
        Seq::empty()
    } else {
        let earlier = writes_during(start, reads.drop_last());
        match step(phase_after(start, reads.drop_last()), reads.last()).1 {
            PollAction::KeepWaiting => earlier,
            PollAction::ClearThenWrite(write) => earlier.push(write),
        }
    }
}

/// The number of overflows observed in a run: the reads that found the
/// indicator set.
pub open spec fn overflows_in(reads: Seq<bool>) -> nat
    decreases reads.len(),
{
    if reads.len() == 0 {
        0
    } else if reads.last() {
        overflows_in(reads.drop_last()) + 1
    } else {
        overflows_in(reads.drop_last())
    }
}

/// Toggle parity. After a run that observed `n` overflows the phase is the
/// starting phase if `n` is even and its opposite if `n` is odd. Every
/// observed overflow is answered by exactly one pair write, none is skipped
/// and none answered twice, and the writes alternate: the one that answers
/// overflow number `i`, counted from zero, is the pair of phase `start` for
/// even `i` and of the opposite phase for odd `i`.
pub proof fn lemma_toggle_parity(start: bool, reads: Seq<bool>)
    ensures
        phase_after(start, reads) == (start != (overflows_in(reads) % 2 == 1)),
        writes_during(start, reads).len() == overflows_in(reads),
        forall|i: int|
            0 <= i < overflows_in(reads) ==> #[trigger] writes_during(start, reads)[i] == pair_for(
                start != (i % 2 == 1),
            ),
    decreases reads.len(),
{
    if reads.len() > 0 {
        lemma_toggle_parity(start, reads.drop_last());
    }
}

/// A read that follows a clear of the overflow indicator, made once or made
/// twice in a row, finds the indicator clear: the loop keeps waiting and the
/// phase stays, so the second clear causes no toggle of its own.
pub proof fn lemma_no_toggle_after_clear(phase: bool, timer: TimerRegisters)
    ensures
        step(phase, timer.after(TimerOp::ClearUpdate).update_pending) == (
            phase,
            PollAction::KeepWaiting,
        ),
        step(
            phase,
            timer.after(TimerOp::ClearUpdate).after(TimerOp::ClearUpdate).update_pending,
        ) == (phase, PollAction::KeepWaiting),
{
}

} // verus!
