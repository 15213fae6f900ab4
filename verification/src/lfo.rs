//! The low-frequency oscillator: its waveforms, and the generator and gate
//! behind its sample-and-hold waveform.
//!
//! The sample-and-hold waveform draws one pseudo-random value at the start
//! of every cycle and holds it for the rest of the cycle. The host keeps the
//! phase. Once a sample it tells the oscillator how the phase compares with
//! the phase increment, and is told whether to take a new value.

use crate::text::{lowercase, same_text, to_lowercase};
use vstd::prelude::*;

verus! {

/// The waveform of a low-frequency oscillator.
#[derive(Debug, Clone, Copy, PartialEq, Eq, Structural, Hash)]
pub enum LfoWaveform {
    Sine,
    Triangle,
    Saw,
    Square,
    SampleAndHold,
}

impl Default for LfoWaveform {
    fn default() -> (r: Self)
        ensures
            r == LfoWaveform::Sine,
    {
        LfoWaveform::Sine
    }
}

impl LfoWaveform {
    /// The waveform of a name in lower case, if it is the name of one:
    /// `sine`, `triangle`, `saw` or `sawtooth`, `square`, and `s&h`,
    /// `sample_and_hold` or `sampleandhold`.
    pub open spec fn spec_from_name(name: Seq<char>) -> Option<LfoWaveform> {
        if name == "sine"@ {
            Some(LfoWaveform::Sine)
        } else if name == "triangle"@ {
            Some(LfoWaveform::Triangle)
        } else if name == "saw"@ || name == "sawtooth"@ {
            Some(LfoWaveform::Saw)
        } else if name == "square"@ {
            Some(LfoWaveform::Square)
        } else if name == "s&h"@ || name == "sample_and_hold"@ || name == "sampleandhold"@ {
            Some(LfoWaveform::SampleAndHold)
        } else {
            None
        }
    }

    /// The waveform with the given name, which is taken as it is written.
    pub fn from_name(name: &str) -> (r: Option<LfoWaveform>)
        ensures
            r == Self::spec_from_name(name@),
    {
        if same_text(name, "sine") {
            Some(LfoWaveform::Sine)
        } else if same_text(name, "triangle") {
            Some(LfoWaveform::Triangle)
        } else if same_text(name, "saw") || same_text(name, "sawtooth") {
            Some(LfoWaveform::Saw)
        } else if same_text(name, "square") {
            Some(LfoWaveform::Square)
        } else if same_text(name, "s&h") || same_text(name, "sample_and_hold") || same_text(
            name,
            "sampleandhold",
        ) {
            Some(LfoWaveform::SampleAndHold)
        } else {
            None
        }
    }
}

/// The waveform that a text names, without regard to case. A text that
/// names none gives nothing.
pub fn parse_lfo_waveform(s: &str) -> (r: Option<LfoWaveform>)
    ensures
        r == LfoWaveform::spec_from_name(lowercase(s@)),
{
    let lower = to_lowercase(s);
    LfoWaveform::from_name(lower.as_str())
}

/// The state after `state` of the xorshift generator with the shifts 13,
/// 17 and 5.
pub open spec fn xorshift32(state: u32) -> u32 {
    let a = state ^ (state << 13);
    let b = a ^ (a >> 17);
    b ^ (b << 5)
}

/// The state with which every generator starts.
pub const LFO_SEED: u32 = 12345;

/// Low frequency oscillator for modulation: its waveform, and the state of
/// its sample-and-hold source.
#[derive(Debug, Clone, Copy, PartialEq, Eq, Structural, Hash)]
pub struct Lfo {
    pub waveform: LfoWaveform,
    /// Whether a value was drawn in the present cycle.
    pub sh_trigger: bool,
    /// The state of the generator.
    pub random_state: u32,
}

impl Lfo {
    /// The generator is not stuck: from the state zero it would draw zero
    /// for ever.
    pub open spec fn wf(self) -> bool {
        self.random_state != 0
    }

    /// Whether a sample draws a new value: the waveform is sample-and-hold,
    /// the phase is at the start of a cycle, and no value was drawn in this
    /// cycle yet.
    pub open spec fn spec_draws(self, at_start: bool) -> bool {
        self.waveform == LfoWaveform::SampleAndHold && at_start && !self.sh_trigger
    }

    /// The oscillator after one sample. `at_start` says that the phase is
    /// below the phase increment, `past_start` that it is at or above it.
    pub open spec fn spec_tick(self, at_start: bool, past_start: bool) -> Lfo {
        if self.waveform != LfoWaveform::SampleAndHold {
            self
        } else if at_start && !self.sh_trigger {
            Lfo {
                waveform: self.waveform,
                sh_trigger: true,
                random_state: xorshift32(self.random_state),
            }
        } else if past_start {
            Lfo { waveform: self.waveform, sh_trigger: false, random_state: self.random_state }
        } else {
            self
        }
    }

    pub fn new() -> (r: Self)
        ensures
            r.waveform == LfoWaveform::Sine,
            !r.sh_trigger,
            r.random_state == LFO_SEED,
            r.wf(),
    {
        Lfo { waveform: LfoWaveform::Sine, sh_trigger: false, random_state: LFO_SEED }
    }

    /// Start a new cycle: the next start of a cycle draws a value again.
    /// The generator goes on from where it is.
    pub fn reset(&mut self)
        ensures
            *final(self) == (Lfo { sh_trigger: false, ..*old(self) }),
    {
        self.sh_trigger = false;
    }

    /// Advance the generator and return its new state. State `s` stands
    /// for the value `s / (2^32 - 1) * 2 - 1`, between -1 and 1.
    pub fn random(&mut self) -> (r: u32)
        ensures
            final(self).random_state == xorshift32(old(self).random_state),
            r == final(self).random_state,
            final(self).waveform == old(self).waveform,
            final(self).sh_trigger == old(self).sh_trigger,
            old(self).wf() ==> final(self).wf(),
    {
        proof {
            if self.random_state != 0 {
                lemma_xorshift_keeps_running(self.random_state);
            }
        }
        let mut state: u32 = self.random_state;
        state ^= state << 13;
        state ^= state >> 17;
        state ^= state << 5;
        self.random_state = state;
        state
    }

    /// Advance by one sample. `at_start` says that the phase is below the
    /// phase increment, `past_start` that it is at or above it; where the
    /// two do not compare, both are false. Returns the state of the
    /// generator where the sample draws a new value to hold, and nothing
    /// where the held value stays. Only the sample-and-hold waveform ever
    /// draws.
    pub fn tick(&mut self, at_start: bool, past_start: bool) -> (r: Option<u32>)
        ensures
            *final(self) == old(self).spec_tick(at_start, past_start),
            r == (if old(self).spec_draws(at_start) {
                Some(xorshift32(old(self).random_state))
            } else {
                None
            }),
            old(self).wf() ==> final(self).wf(),
    {
        match self.waveform {
            LfoWaveform::SampleAndHold => {
                if at_start && !self.sh_trigger {
                    let value = self.random();
                    self.sh_trigger = true;
                    Some(value)
                } else {
                    if past_start {
                        self.sh_trigger = false;
                    }
                    None
                }
            },
            _ => None,
        }
    }
}

/// The generator never reaches the state zero from another state, so it
/// never gets stuck.
pub proof fn lemma_xorshift_keeps_running(state: u32)
    by (bit_vector)
    requires
        state != 0,
    ensures
        xorshift32(state) != 0,
{
}

/// Two different states have different successors: the generator never
/// merges two of its sequences.
pub proof fn lemma_xorshift_injective(a: u32, b: u32)
    by (bit_vector)
    requires
        xorshift32(a) == xorshift32(b),
    ensures
        a == b,
{
}

/// One value is drawn in a cycle: after a sample that drew, no sample
/// draws until the phase has passed the start of the cycle.
pub proof fn lemma_one_draw_per_cycle(lfo: Lfo, at_start: bool)
    requires
        lfo.spec_draws(true),
    ensures
        !lfo.spec_tick(true, false).spec_draws(at_start),
        !lfo.spec_tick(true, false).spec_tick(true, false).spec_draws(at_start),
        lfo.spec_tick(true, false).spec_tick(false, true).spec_draws(true),
{
}

} // verus!
