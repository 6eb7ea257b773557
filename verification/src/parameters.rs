//! Integer scheduling of a simulation run.
//!
//! The timestep `dt` and the cycle count are real numbers that live with
//! the application; what the stepping loop actually consumes are the
//! whole-number counts derived from them: the steps that make up one
//! cycle (the rounding of `1/dt`), the total steps of the run (the cycle
//! count divided by `dt`, rounded up), and from those the save cadence.
//! [`Schedule`] keeps the derived counts consistent: every constructor
//! and setter re-derives all of them in one step.

use vstd::arithmetic::div_mod::{lemma_div_by_self, lemma_div_is_ordered};
use vstd::prelude::*;

verus! {

/// Why a set of simulation parameters is rejected.
#[derive(Clone, Copy, Debug, PartialEq, Eq, Structural)]
pub enum ParametersError {
    /// The timestep lies outside `(0, 1]`.
    Timestep,
    /// Fewer than two saves per cycle would undersample the oscillation.
    Saving,
    /// A negative value where a non-negative one was expected.
    NegativeNumber,
    /// The initial mode is not physically valid.
    Mode,
}

impl ParametersError {
    /// The rendered error text.
    pub fn message(&self) -> (text: String)
        ensures
            (match self {
                ParametersError::Timestep => text@ == "error setting the parameters: timestep has to satisfy 0.0 < dt < 1.0"@,
                ParametersError::Saving => text@ == "error setting the parameters: saves_per_cycle >= 2 required to avoid undersampling"@,
                ParametersError::NegativeNumber => text@ == "error setting the parameters: negative value where positive value was expected"@,
                ParametersError::Mode => text@ == "error setting the parameters: invalid initial mode"@,
            }),
    {
        match self {
            ParametersError::Timestep => "error setting the parameters: timestep has to satisfy 0.0 < dt < 1.0".to_owned(),
            ParametersError::Saving => "error setting the parameters: saves_per_cycle >= 2 required to avoid undersampling".to_owned(),
            ParametersError::NegativeNumber => "error setting the parameters: negative value where positive value was expected".to_owned(),
            ParametersError::Mode => "error setting the parameters: invalid initial mode".to_owned(),
        }
    }
}

/// The whole-number schedule of one run: how many steps make a cycle,
/// how many steps the run has in total, and how often a sample is saved.
///
/// The two derived fields are a function of the three input fields:
/// `skip_per_save` is `steps_per_cycle / saves_per_cycle` and
/// `num_steps_to_save` is `total_steps / skip_per_save`, both by integer
/// division. [`Schedule::wf`] states exactly that, and every method that
/// changes an input re-derives both.
#[derive(Clone, Copy, Debug, PartialEq, Eq, Structural)]
pub struct Schedule {
    /// Steps that make up one cycle of the fundamental oscillation.
    pub steps_per_cycle: usize,
    /// Steps in the whole run.
    pub total_steps: usize,
    /// Samples to be saved per cycle; at least two.
    pub saves_per_cycle: usize,
    /// Steps between two saved samples; derived.
    pub skip_per_save: usize,
    /// Saved samples over the whole run, the initial one not counted;
    /// derived.
    pub num_steps_to_save: usize,
}

impl Schedule {
    /// The derived fields agree with the inputs, and the cadence is
    /// positive so that taking `skip_per_save` steps makes progress.
    pub open spec fn wf(self) -> bool {
        &&& self.saves_per_cycle >= 2
        &&& self.skip_per_save == self.steps_per_cycle / self.saves_per_cycle
        &&& self.skip_per_save >= 1
        &&& self.num_steps_to_save == self.total_steps / self.skip_per_save
    }

    /// Derive the schedule from the three inputs.
    ///
    /// A cycle must be long enough to hold its saves: with fewer steps
    /// per cycle than saves per cycle the cadence would degenerate to
    /// zero and the loop could never reach a save point.
    pub fn new(steps_per_cycle: usize, total_steps: usize, saves_per_cycle: usize) -> (result:
        Result<Schedule, ParametersError>)
        requires
            saves_per_cycle >= 2 ==> steps_per_cycle >= saves_per_cycle,
        ensures
            (match result {
                Ok(schedule) => {
                    &&& saves_per_cycle >= 2
                    &&& schedule.wf()
                    &&& schedule.steps_per_cycle == steps_per_cycle
                    &&& schedule.total_steps == total_steps
                    &&& schedule.saves_per_cycle == saves_per_cycle
                },
                Err(e) => saves_per_cycle < 2 && e == ParametersError::Saving,
            }),
    {
        if saves_per_cycle < 2 {
            return Err(ParametersError::Saving);
        }

        proof {
            lemma_div_by_self(saves_per_cycle as int);
            lemma_div_is_ordered(saves_per_cycle as int, steps_per_cycle as int, saves_per_cycle as int);
        }
        let skip_per_save = steps_per_cycle / saves_per_cycle;
        let num_steps_to_save = total_steps / skip_per_save;

        Ok(Schedule { steps_per_cycle, total_steps, saves_per_cycle, skip_per_save, num_steps_to_save })
    }

    /// Replace the step counts, as a change of timestep or of cycle count
    /// does, and re-derive the cadence.
    pub fn set_step_counts(&mut self, steps_per_cycle: usize, total_steps: usize)
        requires
            old(self).wf(),
            steps_per_cycle >= old(self).saves_per_cycle,
        ensures
            final(self).wf(),
            final(self).steps_per_cycle == steps_per_cycle,
            final(self).total_steps == total_steps,
            final(self).saves_per_cycle == old(self).saves_per_cycle,
    {
        proof {
            lemma_div_by_self(self.saves_per_cycle as int);
            lemma_div_is_ordered(self.saves_per_cycle as int, steps_per_cycle as int, self.saves_per_cycle as int);
        }
        self.steps_per_cycle = steps_per_cycle;
        self.total_steps = total_steps;
        self.skip_per_save = self.steps_per_cycle / self.saves_per_cycle;
        self.num_steps_to_save = self.total_steps / self.skip_per_save;
    }

    /// Change the number of saves per cycle and re-derive the cadence;
    /// fewer than two saves per cycle are rejected and change nothing.
    pub fn set_saves_per_cycle(&mut self, saves_per_cycle: usize) -> (result:
        Result<(), ParametersError>)
        requires
            old(self).wf(),
            saves_per_cycle >= 2 ==> old(self).steps_per_cycle >= saves_per_cycle,
        ensures
            final(self).wf(),
            (match result {
                Ok(()) => {
                    &&& saves_per_cycle >= 2
                    &&& final(self).saves_per_cycle == saves_per_cycle
                    &&& final(self).steps_per_cycle == old(self).steps_per_cycle
                    &&& final(self).total_steps == old(self).total_steps
                },
                Err(e) => {
                    &&& saves_per_cycle < 2
                    &&& e == ParametersError::Saving
                    &&& *final(self) == *old(self)
                },
            }),
    {
        if saves_per_cycle < 2 {
            return Err(ParametersError::Saving);
        }

        proof {
            lemma_div_by_self(saves_per_cycle as int);
            lemma_div_is_ordered(saves_per_cycle as int, self.steps_per_cycle as int, saves_per_cycle as int);
        }
        self.saves_per_cycle = saves_per_cycle;
        self.skip_per_save = self.steps_per_cycle / self.saves_per_cycle;
        self.num_steps_to_save = self.total_steps / self.skip_per_save;

        Ok(())
    }

    pub fn get_steps_per_cycle(&self) -> (steps: usize)
        ensures
            steps == self.steps_per_cycle,
    {
        self.steps_per_cycle
    }

    pub fn get_total_steps(&self) -> (steps: usize)
        ensures
            steps == self.total_steps,
    {
        self.total_steps
    }

    pub fn get_saves_per_cycle(&self) -> (saves: usize)
        ensures
            saves == self.saves_per_cycle,
    {
        self.saves_per_cycle
    }

    pub fn get_skip_per_save(&self) -> (skip: usize)
        ensures
            skip == self.skip_per_save,
    {
        self.skip_per_save
    }

    pub fn get_num_steps_to_save(&self) -> (num: usize)
        ensures
            num == self.num_steps_to_save,
    {
        self.num_steps_to_save
    }
}

} // verus!
