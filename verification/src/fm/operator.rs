//! The operator of the frequency-modulation engines.

use crate::envelope::{Envelope, EnvelopeStage};
use vstd::prelude::*;

verus! {

/// A single FM operator: the stage machine of its envelope. The host keeps
/// the oscillator, the levels and the feedback sample beside it.
#[derive(Debug, Clone, Copy, PartialEq, Eq, Structural, Hash)]
pub struct FmOperator {
    /// The envelope that shapes the output of the operator.
    pub envelope: Envelope,
}

impl FmOperator {
    /// The operator after a trigger.
    pub open spec fn spec_trigger(self) -> FmOperator {
        FmOperator { envelope: Envelope { stage: self.envelope.stage.after_trigger() } }
    }

    /// The operator after a release.
    pub open spec fn spec_release(self) -> FmOperator {
        FmOperator { envelope: Envelope { stage: self.envelope.stage.after_release() } }
    }

    /// The operator after one sample in which its envelope reached, or did
    /// not reach, the target of its stage.
    pub open spec fn spec_tick(self, reached: bool) -> FmOperator {
        FmOperator { envelope: Envelope { stage: self.envelope.stage.after_tick(reached) } }
    }

    /// An operator at rest.
    pub open spec fn spec_new() -> FmOperator {
        FmOperator { envelope: Envelope { stage: EnvelopeStage::Idle } }
    }

    pub fn new() -> (r: Self)
        ensures
            r == FmOperator::spec_new(),
    {
        FmOperator { envelope: Envelope::new() }
    }

    /// Trigger the operator.
    pub fn trigger(&mut self)
        ensures
            *final(self) == old(self).spec_trigger(),
    {
        self.envelope.trigger();
    }

    /// Release the operator.
    pub fn release(&mut self)
        ensures
            *final(self) == old(self).spec_release(),
    {
        self.envelope.release();
    }

    /// Advance by one sample. `reached` says whether the level of the
    /// envelope has reached the target of its stage.
    #[inline]
    pub fn tick(&mut self, reached: bool)
        ensures
            *final(self) == old(self).spec_tick(reached),
    {
        self.envelope.tick(reached);
    }

    /// Check if operator envelope is finished.
    pub fn is_finished(&self) -> (r: bool)
        ensures
            r == (self.envelope.stage == EnvelopeStage::Idle),
    {
        self.envelope.is_idle()
    }

    pub fn reset(&mut self)
        ensures
            *final(self) == FmOperator::spec_new(),
    {
        self.envelope.reset();
    }
}

} // verus!
