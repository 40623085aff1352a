//! Fixed-timestep frame scheduler.
//!
//! Each outer frame measures the wall-clock time since the previous frame,
//! adds it to an accumulator, and drains the accumulator in fixed-size steps,
//! running exactly one simulation update per step; the remainder below one
//! step is carried over to the next frame. Rendering happens once per outer
//! frame regardless of how many simulation steps were taken.

use vstd::arithmetic::div_mod::{
    lemma_fundamental_div_mod_converse_div, lemma_fundamental_div_mod_converse_mod,
};
use vstd::arithmetic::mul::lemma_mul_inequality;
use vstd::prelude::*;

verus! {

/// Drives the simulation at a fixed cadence decoupled from the render rate.
///
/// All durations are in nanoseconds. `accumulator` holds wall-clock time not
/// yet drained into simulation steps; `steps_taken` counts every simulation
/// update issued since construction.
pub struct FrameScheduler {
    /// Size of one simulation step, in nanoseconds. Strictly positive.
    pub fixed_step: u64,
    /// Wall-clock time absorbed but not yet simulated. Always below one step.
    pub accumulator: u64,
    /// Number of fixed simulation steps issued so far.
    pub steps_taken: u64,
}

impl FrameScheduler {
    /// The scheduler's invariant: the step size is positive and the
    /// accumulator always holds strictly less than one full step.
    pub open spec fn wf(&self) -> bool {
        &&& 0 < self.fixed_step
        &&& self.accumulator < self.fixed_step
    }

    /// Simulated time: the total duration covered by completed steps.
    pub open spec fn elapsed(&self) -> int {
        self.steps_taken * self.fixed_step
    }

    /// Total wall-clock time ever fed to `advance`.
    pub open spec fn total_time(&self) -> int {
        self.elapsed() + self.accumulator
    }

    /// Creates a scheduler with the given step size and nothing accumulated.
    pub fn new(fixed_step: u64) -> (s: Self)
        requires
            0 < fixed_step,
        ensures
            s.wf(),
            s.fixed_step == fixed_step,
            s.accumulator == 0,
            s.steps_taken == 0,
    {
        FrameScheduler { fixed_step, accumulator: 0, steps_taken: 0 }
    }

    /// Absorbs one frame's wall-clock duration and returns how many fixed
    /// simulation steps the caller must run: the accumulated time divided by
    /// the step size, with the remainder kept for the next frame.
    pub fn advance(&mut self, frame_time: u64) -> (steps: u64)
        requires
            old(self).wf(),
            old(self).total_time() + frame_time <= u64::MAX,
        ensures
            final(self).wf(),
            final(self).fixed_step == old(self).fixed_step,
            steps == (old(self).accumulator + frame_time) / (old(self).fixed_step as int),
            final(self).accumulator == (old(self).accumulator + frame_time) % (
            old(self).fixed_step as int),
            final(self).steps_taken == old(self).steps_taken + steps,
            final(self).total_time() == old(self).total_time() + frame_time,
    {
        proof {
            lemma_mul_inequality(1, self.fixed_step as int, self.steps_taken as int);
        }
        let mut budget: u64 = self.accumulator + frame_time;
        let mut steps: u64 = 0;
        let ghost fs = self.fixed_step as int;
        let ghost budget0 = self.accumulator + frame_time;
        while budget >= self.fixed_step
            invariant
                0 < self.fixed_step,
                fs == self.fixed_step as int,
                budget + steps * fs == budget0,
                budget0 <= u64::MAX,
            decreases budget,
        {
            proof {
                lemma_mul_inequality(1, fs, steps as int + 1);
                assert(fs * (steps as int + 1) == steps as int * fs + fs) by (nonlinear_arith);
                assert(steps as int + 1 <= budget0);
            }
            budget = budget - self.fixed_step;
            steps = steps + 1;
            assert(budget + steps * fs == budget0) by {
                assert((steps - 1) * fs + fs == steps * fs) by (nonlinear_arith);
            }
        }
        proof {
            lemma_fundamental_div_mod_converse_div(budget0 as int, fs, steps as int, budget as int);
            lemma_fundamental_div_mod_converse_mod(budget0 as int, fs, steps as int, budget as int);
            lemma_mul_inequality(1, fs, self.steps_taken + steps);
            assert((self.steps_taken + steps) * fs == self.steps_taken * fs + steps * fs)
                by (nonlinear_arith);
        }
        self.accumulator = budget;
        self.steps_taken = self.steps_taken + steps;
        steps
    }
}

/// For every sequence of frame times: the number of simulation steps taken
/// equals the total absorbed wall-clock time divided by the fixed step
/// (rounding down), and the accumulator holds exactly the remainder — in
/// particular it is never negative and never reaches a full step.
pub proof fn lemma_steps_match_total_time(s: FrameScheduler)
    requires
        s.wf(),
    ensures
        s.steps_taken == s.total_time() / (s.fixed_step as int),
        s.accumulator == s.total_time() % (s.fixed_step as int),
{
    lemma_fundamental_div_mod_converse_div(
        s.total_time(),
        s.fixed_step as int,
        s.steps_taken as int,
        s.accumulator as int,
    );
    lemma_fundamental_div_mod_converse_mod(
        s.total_time(),
        s.fixed_step as int,
        s.steps_taken as int,
        s.accumulator as int,
    );
}

} // verus!
