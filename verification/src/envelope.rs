//! The stage machine of an attack-decay-sustain-release envelope.
//!
//! An envelope's level is a quantity that the host computes sample by
//! sample. What the level is compared with depends on the stage, and the
//! outcome of that comparison is all that the stage machine needs:
//!
//! * in `Attack`, whether the level has risen to full scale;
//! * in `Decay`, whether the level has fallen to the sustain level;
//! * in `Release`, whether the level has fallen below the silence threshold.
//!
//! In `Idle` and `Sustain` the level is held and nothing is compared.

use vstd::prelude::*;

verus! {

/// The stage of an envelope.
#[derive(Debug, Clone, Copy, PartialEq, Eq, Structural, Hash)]
pub enum EnvelopeStage {
    /// Silent: the initial stage, and the stage after a completed release.
    Idle,
    /// The level rises to full scale.
    Attack,
    /// The level falls to the sustain level.
    Decay,
    /// The level is held at the sustain level.
    Sustain,
    /// The level falls to silence.
    Release,
}

impl Default for EnvelopeStage {
    fn default() -> (r: Self)
        ensures
            r == EnvelopeStage::Idle,
    {
        EnvelopeStage::Idle
    }
}

impl EnvelopeStage {
    /// The stage after a trigger: an attack starts from every stage.
    pub open spec fn after_trigger(self) -> EnvelopeStage {
        EnvelopeStage::Attack
    }

    /// The stage after a release: an idle envelope stays idle, every other
    /// one starts its release.
    pub open spec fn after_release(self) -> EnvelopeStage {
        if self == EnvelopeStage::Idle {
            EnvelopeStage::Idle
        } else {
            EnvelopeStage::Release
        }
    }

    /// The stage after one sample. `reached` says whether the level has
    /// reached the target of the present stage.
    pub open spec fn after_tick(self, reached: bool) -> EnvelopeStage {
        match self {
            EnvelopeStage::Idle => EnvelopeStage::Idle,
            EnvelopeStage::Attack => if reached {
                EnvelopeStage::Decay
            } else {
                EnvelopeStage::Attack
            },
            EnvelopeStage::Decay => if reached {
                EnvelopeStage::Sustain
            } else {
                EnvelopeStage::Decay
            },
            EnvelopeStage::Sustain => EnvelopeStage::Sustain,
            EnvelopeStage::Release => if reached {
                EnvelopeStage::Idle
            } else {
                EnvelopeStage::Release
            },
        }
    }

    /// The stage after a run of samples, one event for each.
    pub open spec fn after_ticks(self, events: Seq<bool>) -> EnvelopeStage
        decreases events.len(),
    {
        if events.len() == 0 {
            self
        } else {
            self.after_ticks(events.drop_last()).after_tick(events.last())
        }
    }

    /// The place of a stage in the course of a note: attack, decay,
    /// sustain, release, idle.
    pub open spec fn rank(self) -> nat {
        match self {
            EnvelopeStage::Attack => 0,
            EnvelopeStage::Decay => 1,
            EnvelopeStage::Sustain => 2,
            EnvelopeStage::Release => 3,
            EnvelopeStage::Idle => 4,
        }
    }
}

/// The number of events that report a target as reached.
pub open spec fn reached_count(events: Seq<bool>) -> nat
    decreases events.len(),
{
    if events.len() == 0 {
        0
    } else {
        reached_count(events.drop_last()) + if events.last() {
            1nat
        } else {
            0nat
        }
    }
}

/// The stage machine of one envelope.
#[derive(Debug, Clone, Copy, PartialEq, Eq, Structural, Hash)]
pub struct Envelope {
    /// The present stage.
    pub stage: EnvelopeStage,
}

impl Default for Envelope {
    fn default() -> (r: Self)
        ensures
            r.stage == EnvelopeStage::Idle,
    {
        Envelope { stage: EnvelopeStage::Idle }
    }
}

impl Envelope {
    /// An idle envelope.
    pub fn new() -> (r: Self)
        ensures
            r.stage == EnvelopeStage::Idle,
    {
        Envelope { stage: EnvelopeStage::Idle }
    }

    /// Trigger the envelope (note on). The attack starts from whatever
    /// stage the envelope is in.
    pub fn trigger(&mut self)
        ensures
            final(self).stage == old(self).stage.after_trigger(),
            final(self).stage == EnvelopeStage::Attack,
    {
        self.stage = EnvelopeStage::Attack;
    }

    /// Release the envelope (note off). An idle envelope is left alone.
    pub fn release(&mut self)
        ensures
            final(self).stage == old(self).stage.after_release(),
    {
        if self.stage != EnvelopeStage::Idle {
            self.stage = EnvelopeStage::Release;
        }
    }

    /// Check if envelope has finished.
    pub fn is_idle(&self) -> (r: bool)
        ensures
            r == (self.stage == EnvelopeStage::Idle),
    {
        self.stage == EnvelopeStage::Idle
    }

    /// Get current stage.
    pub fn stage(&self) -> (r: EnvelopeStage)
        ensures
            r == self.stage,
    {
        self.stage
    }

    /// Advance by one sample. `reached` says whether the level has reached
    /// the target of the present stage; in a stage that holds its level it
    /// is not looked at.
    pub fn tick(&mut self, reached: bool)
        ensures
            final(self).stage == old(self).stage.after_tick(reached),
    {
        match self.stage {
            EnvelopeStage::Idle => {},
            EnvelopeStage::Attack => {
                if reached {
                    self.stage = EnvelopeStage::Decay;
                }
            },
            EnvelopeStage::Decay => {
                if reached {
                    self.stage = EnvelopeStage::Sustain;
                }
            },
            EnvelopeStage::Sustain => {},
            EnvelopeStage::Release => {
                if reached {
                    self.stage = EnvelopeStage::Idle;
                }
            },
        }
    }

    /// Reset envelope to initial state.
    pub fn reset(&mut self)
        ensures
            final(self).stage == EnvelopeStage::Idle,
    {
        self.stage = EnvelopeStage::Idle;
    }
}

/// One sample moves an envelope at most one stage on, and never back. It
/// never carries a held note into its release, nor a released one back.
pub proof fn lemma_tick_moves_forward(stage: EnvelopeStage, reached: bool)
    ensures
        stage.rank() <= stage.after_tick(reached).rank() <= stage.rank() + 1,
        stage.rank() <= 2 <==> stage.after_tick(reached).rank() <= 2,
        !reached ==> stage.after_tick(reached) == stage,
{
}

/// While an envelope is only ticked, its stage never goes back: the stage
/// after `i` samples comes no later in the course of a note than the stage
/// after `j >= i` samples.
pub proof fn lemma_ticks_never_go_back(stage: EnvelopeStage, events: Seq<bool>, i: int, j: int)
    requires
        0 <= i <= j <= events.len(),
    ensures
        stage.after_ticks(events.take(i)).rank() <= stage.after_ticks(events.take(j)).rank(),
    decreases j - i,
{
    if i < j {
        lemma_ticks_never_go_back(stage, events, i, j - 1);
        assert(events.take(j).drop_last() == events.take(j - 1));
        lemma_tick_moves_forward(stage.after_ticks(events.take(j - 1)), events.take(j).last());
    }
}

/// After a trigger the stages come in the order attack, decay, sustain:
/// the envelope is in its attack until the level first reaches its target,
/// in its decay until it does so a second time, and in its sustain from
/// then on.
pub proof fn lemma_triggered_stages(start: EnvelopeStage, events: Seq<bool>)
    ensures
        start.after_trigger().after_ticks(events) == (if reached_count(events) == 0 {
            EnvelopeStage::Attack
        } else if reached_count(events) == 1 {
            EnvelopeStage::Decay
        } else {
            EnvelopeStage::Sustain
        }),
    decreases events.len(),
{
    if events.len() > 0 {
        lemma_triggered_stages(start, events.drop_last());
    }
}

/// After a release from any stage but idle, the envelope is in its release
/// until the level reaches silence, and idle from then on.
pub proof fn lemma_released_stages(start: EnvelopeStage, events: Seq<bool>)
    requires
        start != EnvelopeStage::Idle,
    ensures
        start.after_release().after_ticks(events) == (if reached_count(events) == 0 {
            EnvelopeStage::Release
        } else {
            EnvelopeStage::Idle
        }),
    decreases events.len(),
{
    if events.len() > 0 {
        lemma_released_stages(start, events.drop_last());
    }
}

/// An idle envelope stays idle until it is triggered: neither samples nor
/// a release move it.
pub proof fn lemma_idle_is_terminal(events: Seq<bool>)
    ensures
        EnvelopeStage::Idle.after_ticks(events) == EnvelopeStage::Idle,
        EnvelopeStage::Idle.after_release() == EnvelopeStage::Idle,
    decreases events.len(),
{
    if events.len() > 0 {
        lemma_idle_is_terminal(events.drop_last());
    }
}

} // verus!
