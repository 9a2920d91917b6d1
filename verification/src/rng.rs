//! The randomness capability. The random-mask instruction consumes one
//! uniformly random byte per execution; [`CPU::emulate_cycle`] takes that
//! byte as an argument so a deterministic source can be injected, and the
//! convenience step here draws it from the process-wide generator instead.
//! Nothing can be promised of a random value, so the step's contract says
//! only that some byte drove the step relation.

use vstd::prelude::*;
use crate::cpu::CPU;
use crate::cpu::Chip8Error;
use crate::cpu::StepOutcome;
use crate::step::step_rel;

verus! {

/// Relies on rand::random, which draws a value of the requested type from
/// the thread-local generator; nothing is known of the result.
pub assume_specification<T>[ rand::random::<T> ]() -> (r: T)
    where
        rand::distr::StandardUniform: rand::distr::Distribution<T>,
;

impl CPU {
    /// One step of the machine with the random byte drawn from the
    /// process-wide generator: whatever byte came back, the step relation
    /// holds of it.
    pub fn emulate_cycle_random(&mut self) -> (r: Result<StepOutcome, Chip8Error>)
        requires
            old(self).wf(),
        ensures
            final(self).wf(),
            exists|b: u8| step_rel(*old(self), b, *final(self), r),
    {
        let b = rand::random::<u8>();
        let r = self.emulate_cycle(b);
        proof {
            assert(step_rel(*old(self), b, *final(self), r));
        }
        r
    }
}

} // verus!
