//! The decisions of the stochastic stepping loop.
//!
//! Each step of a run updates the mode state in real-valued coordinates;
//! that arithmetic lives with the application. What the loop decides,
//! and what is proved here, is its bookkeeping: the run performs exactly
//! `total_steps` steps, a sample is logged after every step whose index
//! is a multiple of `skip_per_save`, and together with the sample logged
//! before the first step a completed run has logged exactly
//! `1 + total_steps / skip_per_save` samples.

use crate::parameters::Schedule;
use vstd::arithmetic::div_mod::{
    lemma_div_nonincreasing, lemma_fundamental_div_mod, lemma_fundamental_div_mod_converse,
    lemma_mod_bound,
};
use vstd::prelude::*;

verus! {

/// How many of the step indices `1 ..= steps` are multiples of `skip`:
/// the number of samples that the loop logs during those steps.
pub open spec fn saves_within(steps: nat, skip: nat) -> nat
    decreases steps,
{
    if steps == 0 {
        0
    } else {
        saves_within((steps - 1) as nat, skip) + if steps % skip == 0 {
            1nat
        } else {
            0nat
        }
    }
}

/// The multiples of `skip` among `1 ..= steps` number exactly
/// `steps / skip`.
pub proof fn lemma_saves_within_is_quotient(steps: nat, skip: nat)
    requires
        skip >= 1,
    ensures
        saves_within(steps, skip) == steps / skip,
    decreases steps,
{
    if steps == 0 {
    } else {
        lemma_saves_within_is_quotient((steps - 1) as nat, skip);
        lemma_fundamental_div_mod(steps - 1, skip as int);
        lemma_mod_bound(steps - 1, skip as int);
        let quotient = (steps - 1) as int / skip as int;
        let remainder = (steps - 1) as int % skip as int;
        if remainder + 1 == skip {
            assert(steps as int == (quotient + 1) * (skip as int) + 0) by (nonlinear_arith)
                requires
                    steps as int - 1 == (skip as int) * quotient + remainder,
                    remainder + 1 == skip as int,
            ;
            lemma_fundamental_div_mod_converse(steps as int, skip as int, quotient + 1, 0);
        } else {
            assert(steps as int == quotient * (skip as int) + (remainder + 1)) by (nonlinear_arith)
                requires
                    steps as int - 1 == (skip as int) * quotient + remainder,
            ;
            lemma_fundamental_div_mod_converse(steps as int, skip as int, quotient, remainder + 1);
        }
    }
}

/// The loop bookkeeping of one run: the current step index, the bounds
/// it moves in, and the count of samples logged so far.
///
/// The application drives it as the original loop does: one sample is
/// logged at time zero before any step, then [`RunCadence::advance`] is
/// called once per step until [`RunCadence::is_running`] turns false,
/// and a sample is logged after exactly the steps for which `advance`
/// says so.
#[derive(Clone, Copy, Debug, PartialEq, Eq, Structural)]
pub struct RunCadence {
    /// Steps in the whole run.
    pub total_steps: usize,
    /// Steps between two saved samples; positive.
    pub skip_per_save: usize,
    /// Steps completed so far.
    pub step: usize,
    /// Samples logged so far, the one at time zero included.
    pub samples_logged: usize,
}

impl RunCadence {
    /// The step index is in bounds and the sample count is exactly the
    /// initial sample plus one per completed multiple of the cadence.
    pub open spec fn wf(self) -> bool {
        &&& self.skip_per_save >= 1
        &&& self.step <= self.total_steps
        &&& self.total_steps < usize::MAX
        &&& self.samples_logged == 1 + saves_within(self.step as nat, self.skip_per_save as nat)
    }

    /// Start a run of the given schedule: no step taken yet, and the
    /// sample at time zero already logged.
    pub fn new(schedule: &Schedule) -> (cadence: RunCadence)
        requires
            schedule.wf(),
            schedule.total_steps < usize::MAX,
        ensures
            cadence.wf(),
            cadence.total_steps == schedule.total_steps,
            cadence.skip_per_save == schedule.skip_per_save,
            cadence.step == 0,
            cadence.samples_logged == 1,
    {
        RunCadence {
            total_steps: schedule.total_steps,
            skip_per_save: schedule.skip_per_save,
            step: 0,
            samples_logged: 1,
        }
    }

    /// Whether another step remains to be taken.
    pub fn is_running(&self) -> (running: bool)
        ensures
            running == (self.step < self.total_steps),
    {
        self.step < self.total_steps
    }

    /// Complete one step. The result says whether the loop logs a sample
    /// after this step, which it does exactly when the new step index is
    /// a multiple of the cadence.
    pub fn advance(&mut self) -> (save_now: bool)
        requires
            old(self).wf(),
            old(self).step < old(self).total_steps,
        ensures
            final(self).wf(),
            final(self).total_steps == old(self).total_steps,
            final(self).skip_per_save == old(self).skip_per_save,
            final(self).step == old(self).step + 1,
            save_now == ((old(self).step + 1) % (old(self).skip_per_save as int) == 0),
            final(self).samples_logged == old(self).samples_logged + if save_now {
                1int
            } else {
                0int
            },
    {
        proof {
            lemma_saves_within_is_quotient(
                (old(self).step + 1) as nat,
                old(self).skip_per_save as nat,
            );
            lemma_div_nonincreasing((old(self).step + 1) as int, old(self).skip_per_save as int);
        }
        self.step = self.step + 1;
        let save_now = self.step % self.skip_per_save == 0;
        if save_now {
            self.samples_logged = self.samples_logged + 1;
        }
        save_now
    }

    /// A completed run has logged exactly the sample at time zero plus
    /// one sample for every `skip_per_save` steps of the run.
    pub proof fn lemma_completed_sample_count(self)
        requires
            self.wf(),
            self.step == self.total_steps,
        ensures
            self.samples_logged == 1 + self.total_steps as nat / self.skip_per_save as nat,
    {
        lemma_saves_within_is_quotient(self.total_steps as nat, self.skip_per_save as nat);
    }
}

} // verus!
