use ossian19_core::envelope::EnvelopeStage;
use ossian19_core::filter::{FilterSlope, FilterType};
use ossian19_core::oscillator::{SubWaveform, Waveform};
use ossian19_core::synth::{
    control_action, param_change, ControlAction, ParamChange, Synth, SynthParam, SynthParams,
};

/// The amount that a change sets, as the host computes it.
fn amount(change: &ParamChange) -> f32 {
    change.base as f32 + (change.value as f32 / 127.0) * change.span as f32
}

#[test]
fn new_synth_is_silent_and_plays_a_note() {
    let mut synth = Synth::new(8);
    assert_eq!(synth.num_voices(), 8);
    assert_eq!(synth.active_voice_count(), 0);
    assert_eq!(synth.note_on(60), Some(0));
    assert_eq!(synth.active_voice_count(), 1);
    assert_eq!(synth.voice(0).unwrap().note, 60);
    assert_eq!(synth.note_off(60), vec![0]);
    assert_eq!(synth.active_voice_count(), 1);
    synth.tick_voice(0, true, false);
    assert_eq!(synth.active_voice_count(), 0);
}

#[test]
fn default_settings() {
    let synth = Synth::new(1);
    let params = *synth.params();
    assert_eq!(params, SynthParams::default());
    assert_eq!(params.osc1_waveform, Waveform::Saw);
    assert_eq!(params.osc2_waveform, Waveform::Square);
    assert_eq!(params.sub_waveform, SubWaveform::Square);
    assert_eq!(params.sub_octave, -1);
    assert_eq!(params.filter_type, FilterType::LowPass);
    assert_eq!(params.filter_slope, FilterSlope::Pole4);
}

#[test]
fn controllers_set_their_amounts() {
    let cutoff = param_change(1, 127).unwrap();
    assert_eq!(cutoff.param, SynthParam::FilterCutoff);
    assert!(!cutoff.to_voices);
    assert_eq!(amount(&cutoff), 20000.0);
    assert_eq!(amount(&param_change(1, 0).unwrap()), 100.0);
    assert_eq!(param_change(74, 64), Some(ParamChange { value: 64, ..cutoff }));
    assert_eq!(amount(&param_change(74, 64).unwrap()), 100.0 + (64.0f32 / 127.0) * 19900.0);

    let resonance = param_change(71, 127).unwrap();
    assert_eq!(resonance.param, SynthParam::FilterResonance);
    assert!(resonance.to_voices);
    assert_eq!(amount(&resonance), 1.0);
    assert_eq!(amount(&param_change(71, 32).unwrap()), 32.0f32 / 127.0);

    let attack = param_change(73, 127).unwrap();
    assert_eq!(attack.param, SynthParam::AmpAttack);
    assert!(!attack.to_voices);
    assert_eq!(amount(&attack), 2.0);

    let decay = param_change(75, 127).unwrap();
    assert_eq!(decay.param, SynthParam::AmpDecay);
    assert_eq!(amount(&decay), 2.0);

    let release = param_change(72, 127).unwrap();
    assert_eq!(release.param, SynthParam::AmpRelease);
    assert_eq!(amount(&release), 3.0);
    assert_eq!(amount(&param_change(72, 100).unwrap()), (100.0f32 / 127.0) * 3.0);
}

#[test]
fn other_controllers_are_ignored() {
    for cc in 0..=255u8 {
        let known = [1u8, 71, 72, 73, 74, 75].contains(&cc);
        assert_eq!(param_change(cc, 64).is_some(), known);
    }
    let mut synth = Synth::new(2);
    synth.note_on(60);
    assert_eq!(synth.control_change(7, 100), ControlAction::Ignore);
    assert_eq!(synth.control_change(64, 127), ControlAction::Ignore);
    assert_eq!(synth.voice(0).unwrap().amp_env.stage(), EnvelopeStage::Attack);
    assert_eq!(synth.active_voice_count(), 1);
}

#[test]
fn controller_123_releases_all_notes() {
    let mut synth = Synth::new(3);
    synth.note_on(60);
    synth.note_on(64);
    assert_eq!(synth.control_change(123, 0), ControlAction::ReleaseAll);
    assert_eq!(synth.voice(0).unwrap().amp_env.stage(), EnvelopeStage::Release);
    assert_eq!(synth.voice(1).unwrap().amp_env.stage(), EnvelopeStage::Release);
    assert_eq!(synth.voice(2).unwrap().amp_env.stage(), EnvelopeStage::Idle);
    assert_eq!(synth.active_voice_count(), 2);
}

#[test]
fn amount_controllers_leave_the_voices_alone() {
    let mut synth = Synth::new(2);
    synth.note_on(60);
    let action = synth.control_change(71, 127);
    assert_eq!(action, ControlAction::Change(param_change(71, 127).unwrap()));
    assert_eq!(synth.voice(0).unwrap().amp_env.stage(), EnvelopeStage::Attack);
    assert_eq!(*synth.params(), SynthParams::default());
}

#[test]
fn all_notes_off_and_panic() {
    let mut synth = Synth::new(4);
    synth.note_on(60);
    synth.note_on(67);
    synth.all_notes_off();
    assert_eq!(synth.active_voice_count(), 2);
    assert_eq!(synth.voice(1).unwrap().filter_env.stage(), EnvelopeStage::Release);
    synth.panic();
    assert_eq!(synth.active_voice_count(), 0);
    assert_eq!(synth.voice(1).unwrap().note, 0);
}

#[test]
fn sub_octave_is_clamped() {
    let mut synth = Synth::new(1);
    for (request, octave) in
        [(-1i8, -1i8), (-2, -2), (-3, -2), (-128, -2), (0, -1), (1, -1), (127, -1)]
    {
        synth.set_sub_octave(request);
        assert_eq!(synth.params().sub_octave, octave);
    }
}

#[test]
fn choice_setters_store_their_choice() {
    let mut synth = Synth::new(1);
    synth.set_osc1_waveform(Waveform::Triangle);
    synth.set_osc2_waveform(Waveform::Sine);
    synth.set_sub_waveform(SubWaveform::Sine);
    synth.set_filter_slope(FilterSlope::Pole2);
    let params = synth.params();
    assert_eq!(params.osc1_waveform, Waveform::Triangle);
    assert_eq!(params.osc2_waveform, Waveform::Sine);
    assert_eq!(params.sub_waveform, SubWaveform::Sine);
    assert_eq!(params.filter_slope, FilterSlope::Pole2);
    assert_eq!(params.filter_type, FilterType::LowPass);
    assert_eq!(params.sub_octave, -1);
}

#[test]
fn synth_steals_the_first_voice_when_full() {
    let mut synth = Synth::new(2);
    assert_eq!(synth.note_on(60), Some(0));
    assert_eq!(synth.note_on(62), Some(1));
    assert_eq!(synth.note_on(64), Some(0));
    assert_eq!(synth.active_voice_count(), 2);
    assert_eq!(synth.voice(2), None);
    synth.tick_voice(9, true, true);
    assert_eq!(synth.active_voice_count(), 2);
}

#[test]
fn control_actions() {
    assert_eq!(control_action(123, 0), ControlAction::ReleaseAll);
    assert_eq!(control_action(123, 127), ControlAction::ReleaseAll);
    assert_eq!(control_action(0, 0), ControlAction::Ignore);
    assert_eq!(control_action(122, 5), ControlAction::Ignore);
    for cc in [1u8, 71, 72, 73, 74, 75] {
        assert_eq!(control_action(cc, 9), ControlAction::Change(param_change(cc, 9).unwrap()));
    }
}
