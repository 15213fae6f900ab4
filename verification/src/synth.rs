//! The subtractive synthesizer as its host sees it: notes and controller
//! messages come in, and the voices that are to play, to release or to
//! change come out.

use crate::filter::{FilterSlope, FilterType};
use crate::oscillator::{SubWaveform, Waveform};
use crate::pool::{active_count, all_free, none_free, none_playing, playing_voices, takes_note};
use crate::voice::{pool_note_off, pool_note_on, pool_wf, Voice, VoiceManager};
use vstd::prelude::*;

verus! {

/// The settings of the synthesizer that are choices rather than amounts.
/// The host keeps the amounts beside them.
#[derive(Debug, Clone, Copy, PartialEq, Eq, Structural, Hash)]
pub struct SynthParams {
    pub osc1_waveform: Waveform,
    pub osc2_waveform: Waveform,
    pub sub_waveform: SubWaveform,
    /// Octaves that the sub-oscillator lies from the note: -1 or -2.
    pub sub_octave: i8,
    pub filter_type: FilterType,
    pub filter_slope: FilterSlope,
}

impl SynthParams {
    /// The settings of a new synthesizer.
    pub open spec fn spec_default() -> SynthParams {
        SynthParams {
            osc1_waveform: Waveform::Saw,
            osc2_waveform: Waveform::Square,
            sub_waveform: SubWaveform::Square,
            sub_octave: -1i8,
            filter_type: FilterType::LowPass,
            filter_slope: FilterSlope::Pole4,
        }
    }
}

impl Default for SynthParams {
    fn default() -> (r: Self)
        ensures
            r == SynthParams::spec_default(),
    {
        SynthParams {
            osc1_waveform: Waveform::Saw,
            osc2_waveform: Waveform::Square,
            sub_waveform: SubWaveform::Square,
            sub_octave: -1,
            filter_type: FilterType::LowPass,
            filter_slope: FilterSlope::Pole4,
        }
    }
}

/// An amount that a controller message can set.
#[derive(Debug, Clone, Copy, PartialEq, Eq, Structural, Hash)]
pub enum SynthParam {
    FilterCutoff,
    FilterResonance,
    AmpAttack,
    AmpDecay,
    AmpRelease,
}

/// What a controller message asks of the host: to set `param` to
/// `base + value / 127 * span`.
#[derive(Debug, Clone, Copy, PartialEq, Eq, Structural, Hash)]
pub struct ParamChange {
    /// The amount to set.
    pub param: SynthParam,
    /// What the amount is at the value 0.
    pub base: u16,
    /// By how much the amount grows up to the value 127.
    pub span: u16,
    /// The value of the message.
    pub value: u8,
    /// Whether the voices take the new amount at once. Where they do not,
    /// it waits among the settings until these are next applied.
    pub to_voices: bool,
}

/// What a controller message asks for.
#[derive(Debug, Clone, Copy, PartialEq, Eq, Structural, Hash)]
pub enum ControlAction {
    /// Nothing: the controller is not one that the synthesizer knows.
    Ignore,
    /// Every note is released.
    ReleaseAll,
    /// An amount is set.
    Change(ParamChange),
}

/// The number of the controller that releases all notes.
pub const CC_ALL_NOTES_OFF: u8 = 123;

/// What a controller message sets. Controllers 1 and 74 set the filter
/// cutoff between 100 and 20000, 71 the resonance between 0 and 1, 73 and
/// 75 the attack and the decay between 0 and 2, 72 the release between 0
/// and 3. Every other controller sets nothing.
pub open spec fn spec_param_change(cc: u8, value: u8) -> Option<ParamChange> {
    if cc == 1 || cc == 74 {
        Some(
            ParamChange {
                param: SynthParam::FilterCutoff,
                base: 100,
                span: 19900,
                value,
                to_voices: false,
            },
        )
    } else if cc == 71 {
        Some(
            ParamChange {
                param: SynthParam::FilterResonance,
                base: 0,
                span: 1,
                value,
                to_voices: true,
            },
        )
    } else if cc == 73 {
        Some(
            ParamChange { param: SynthParam::AmpAttack, base: 0, span: 2, value, to_voices: false },
        )
    } else if cc == 75 {
        Some(ParamChange { param: SynthParam::AmpDecay, base: 0, span: 2, value, to_voices: false })
    } else if cc == 72 {
        Some(
            ParamChange {
                param: SynthParam::AmpRelease,
                base: 0,
                span: 3,
                value,
                to_voices: false,
            },
        )
    } else {
        None
    }
}

/// What a controller message sets; see `spec_param_change`.
pub fn param_change(cc: u8, value: u8) -> (r: Option<ParamChange>)
    ensures
        r == spec_param_change(cc, value),
{
    match cc {
        1 | 74 => Some(
            ParamChange {
                param: SynthParam::FilterCutoff,
                base: 100,
                span: 19900,
                value,
                to_voices: false,
            },
        ),
        71 => Some(
            ParamChange {
                param: SynthParam::FilterResonance,
                base: 0,
                span: 1,
                value,
                to_voices: true,
            },
        ),
        73 => Some(
            ParamChange { param: SynthParam::AmpAttack, base: 0, span: 2, value, to_voices: false },
        ),
        75 => Some(
            ParamChange { param: SynthParam::AmpDecay, base: 0, span: 2, value, to_voices: false },
        ),
        72 => Some(
            ParamChange {
                param: SynthParam::AmpRelease,
                base: 0,
                span: 3,
                value,
                to_voices: false,
            },
        ),
        _ => None,
    }
}

/// What a controller message asks for: controller 123 releases all notes,
/// the controllers of `spec_param_change` set their amounts, and every
/// other controller is ignored.
pub open spec fn spec_control_action(cc: u8, value: u8) -> ControlAction {
    if cc == CC_ALL_NOTES_OFF {
        ControlAction::ReleaseAll
    } else {
        match spec_param_change(cc, value) {
            Some(change) => ControlAction::Change(change),
            None => ControlAction::Ignore,
        }
    }
}

/// What a controller message asks for; see `spec_control_action`.
pub fn control_action(cc: u8, value: u8) -> (r: ControlAction)
    ensures
        r == spec_control_action(cc, value),
{
    if cc == CC_ALL_NOTES_OFF {
        ControlAction::ReleaseAll
    } else {
        match param_change(cc, value) {
            Some(change) => ControlAction::Change(change),
            None => ControlAction::Ignore,
        }
    }
}

/// The octave of the sub-oscillator that a request selects: the nearest of
/// -2 and -1.
pub open spec fn spec_sub_octave(octave: i8) -> i8 {
    if octave <= -2 {
        -2i8
    } else {
        -1i8
    }
}

/// Main synthesizer engine: the voice pool and the settings.
pub struct Synth {
    voice_manager: VoiceManager,
    params: SynthParams,
}

impl Synth {
    /// The voices of the pool.
    pub closed spec fn voices(&self) -> Seq<Voice> {
        self.voice_manager@
    }

    /// The settings.
    pub closed spec fn spec_params(&self) -> SynthParams {
        self.params
    }

    /// A synthesizer with `num_voices` silent voices and the default
    /// settings.
    pub fn new(num_voices: usize) -> (r: Self)
        ensures
            r.voices().len() == num_voices,
            forall|i: int| 0 <= i < num_voices ==> r.voices()[i] == Voice::spec_new(),
            all_free(r.voices()),
            pool_wf(r.voices()),
            r.spec_params() == SynthParams::spec_default(),
    {
        Synth { voice_manager: VoiceManager::new(num_voices), params: SynthParams::default() }
    }

    /// Get current parameters.
    pub fn params(&self) -> (r: &SynthParams)
        ensures
            *r == self.spec_params(),
    {
        &self.params
    }

    /// The number of voices in the pool.
    pub fn num_voices(&self) -> (r: usize)
        ensures
            r == self.voices().len(),
    {
        self.voice_manager.num_voices()
    }

    /// The voice at `index`, if the pool has one there.
    pub fn voice(&self, index: usize) -> (r: Option<Voice>)
        ensures
            r == (if index < self.voices().len() {
                Some(self.voices()[index as int])
            } else {
                None
            }),
    {
        self.voice_manager.voice(index)
    }

    /// Handle MIDI note on: returns the voice that plays the note; see
    /// `VoiceManager::note_on`.
    pub fn note_on(&mut self, note: u8) -> (r: Option<usize>)
        ensures
            match r {
                Some(i) => takes_note(old(self).voices(), note, i as int) && final(self).voices()
                    == pool_note_on(old(self).voices(), note, i as int),
                None => old(self).voices().len() == 0 && final(self).voices() == old(
                    self,
                ).voices(),
            },
            final(self).voices().len() == old(self).voices().len(),
            active_count(final(self).voices()) == active_count(old(self).voices()) + (
            if none_playing(old(self).voices(), note) && !none_free(old(self).voices()) {
                1nat
            } else {
                0nat
            }),
            active_count(final(self).voices()) <= final(self).voices().len(),
            final(self).spec_params() == old(self).spec_params(),
            pool_wf(old(self).voices()) ==> pool_wf(final(self).voices()),
    {
        self.voice_manager.note_on(note)
    }

    /// Handle MIDI note off: returns the voices that were released, in
    /// ascending order.
    pub fn note_off(&mut self, note: u8) -> (r: Vec<usize>)
        ensures
            final(self).voices() == pool_note_off(old(self).voices(), note),
            r@ == playing_voices(old(self).voices(), note),
            final(self).spec_params() == old(self).spec_params(),
            pool_wf(old(self).voices()) ==> pool_wf(final(self).voices()),
    {
        self.voice_manager.note_off(note)
    }

    /// Handle MIDI CC. Controller 123 releases all notes: every voice
    /// starts its release. The controllers that set an amount leave the
    /// voices as they are: what they set is returned, for the host to
    /// store. Every other controller is ignored.
    pub fn control_change(&mut self, cc: u8, value: u8) -> (r: ControlAction)
        ensures
            r == spec_control_action(cc, value),
            final(self).spec_params() == old(self).spec_params(),
            final(self).voices().len() == old(self).voices().len(),
            forall|i: int|
                0 <= i < old(self).voices().len() ==> #[trigger] final(self).voices()[i] == (if r
                    == ControlAction::ReleaseAll {
                    old(self).voices()[i].spec_note_off()
                } else {
                    old(self).voices()[i]
                }),
            pool_wf(old(self).voices()) ==> pool_wf(final(self).voices()),
    {
        let action = control_action(cc, value);
        match action {
            ControlAction::ReleaseAll => {
                self.voice_manager.all_notes_off();
            },
            _ => {},
        }
        action
    }

    /// All notes off: every voice starts its release.
    pub fn all_notes_off(&mut self)
        ensures
            final(self).voices().len() == old(self).voices().len(),
            forall|i: int|
                0 <= i < old(self).voices().len() ==> #[trigger] final(self).voices()[i] == old(
                    self,
                ).voices()[i].spec_note_off(),
            final(self).spec_params() == old(self).spec_params(),
            pool_wf(old(self).voices()) ==> pool_wf(final(self).voices()),
    {
        self.voice_manager.all_notes_off();
    }

    /// Panic - immediately stop all sound.
    pub fn panic(&mut self)
        ensures
            final(self).voices().len() == old(self).voices().len(),
            forall|i: int|
                0 <= i < old(self).voices().len() ==> #[trigger] final(self).voices()[i]
                    == Voice::spec_new(),
            active_count(final(self).voices()) == 0,
            pool_wf(final(self).voices()),
            final(self).spec_params() == old(self).spec_params(),
    {
        self.voice_manager.panic();
    }

    /// Get number of active voices.
    pub fn active_voice_count(&self) -> (r: usize)
        ensures
            r == active_count(self.voices()),
            r <= self.voices().len(),
    {
        self.voice_manager.active_voice_count()
    }

    /// Advance the voice at `index` by one sample; see `Voice::tick`. An
    /// index past the pool is ignored.
    pub fn tick_voice(&mut self, index: usize, amp_reached: bool, filter_reached: bool)
        ensures
            final(self).voices() == (if index < old(self).voices().len() {
                old(self).voices().update(
                    index as int,
                    old(self).voices()[index as int].spec_tick(amp_reached, filter_reached),
                )
            } else {
                old(self).voices()
            }),
            final(self).spec_params() == old(self).spec_params(),
            pool_wf(old(self).voices()) ==> pool_wf(final(self).voices()),
    {
        self.voice_manager.tick_voice(index, amp_reached, filter_reached);
    }

    pub fn set_osc1_waveform(&mut self, waveform: Waveform)
        ensures
            final(self).spec_params() == (SynthParams {
                osc1_waveform: waveform,
                ..old(self).spec_params()
            }),
            final(self).voices() == old(self).voices(),
    {
        self.params.osc1_waveform = waveform;
    }

    pub fn set_osc2_waveform(&mut self, waveform: Waveform)
        ensures
            final(self).spec_params() == (SynthParams {
                osc2_waveform: waveform,
                ..old(self).spec_params()
            }),
            final(self).voices() == old(self).voices(),
    {
        self.params.osc2_waveform = waveform;
    }

    pub fn set_sub_waveform(&mut self, waveform: SubWaveform)
        ensures
            final(self).spec_params() == (SynthParams {
                sub_waveform: waveform,
                ..old(self).spec_params()
            }),
            final(self).voices() == old(self).voices(),
    {
        self.params.sub_waveform = waveform;
    }

    /// Set the octave of the sub-oscillator. A request outside -2 and -1
    /// selects the nearer of the two.
    pub fn set_sub_octave(&mut self, octave: i8)
        ensures
            final(self).spec_params() == (SynthParams {
                sub_octave: spec_sub_octave(octave),
                ..old(self).spec_params()
            }),
            final(self).voices() == old(self).voices(),
    {
        self.params.sub_octave = if octave <= -2 {
            -2
        } else {
            -1
        };
    }

    pub fn set_filter_slope(&mut self, slope: FilterSlope)
        ensures
            final(self).spec_params() == (SynthParams {
                filter_slope: slope,
                ..old(self).spec_params()
            }),
            final(self).voices() == old(self).voices(),
    {
        self.params.filter_slope = slope;
    }
}

} // verus!
