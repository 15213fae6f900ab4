use ossian19_core::envelope::EnvelopeStage;
use ossian19_core::voice::{NoiseGen, Voice, VoiceManager};

/// The level of one envelope as a host computes it.
struct Level {
    attack: f32,
    decay: f32,
    sustain: f32,
    release: f32,
    sample_rate: f32,
    level: f32,
    release_level: f32,
}

impl Level {
    fn new(sample_rate: f32) -> Self {
        Level {
            attack: 0.01,
            decay: 0.1,
            sustain: 0.7,
            release: 0.3,
            sample_rate,
            level: 0.0,
            release_level: 0.0,
        }
    }

    fn rate(&self, time: f32) -> f32 {
        if time <= 0.0 {
            1.0
        } else {
            1.0 / (time * self.sample_rate)
        }
    }

    /// Called after a release: an envelope that took it holds the level.
    fn released(&mut self, stage: EnvelopeStage) {
        if stage == EnvelopeStage::Release {
            self.release_level = self.level;
        }
    }

    /// One sample in the given stage: whether the level reached its target.
    fn step(&mut self, stage: EnvelopeStage) -> bool {
        match stage {
            EnvelopeStage::Idle => {
                self.level = 0.0;
                false
            }
            EnvelopeStage::Attack => {
                self.level += self.rate(self.attack);
                if self.level >= 1.0 {
                    self.level = 1.0;
                    true
                } else {
                    false
                }
            }
            EnvelopeStage::Decay => {
                self.level -= self.rate(self.decay);
                if self.level <= self.sustain {
                    self.level = self.sustain;
                    true
                } else {
                    false
                }
            }
            EnvelopeStage::Sustain => {
                self.level = self.sustain;
                false
            }
            EnvelopeStage::Release => {
                self.level -= self.rate(self.release) * self.release_level;
                if self.level <= 0.0001 {
                    self.level = 0.0;
                    true
                } else {
                    false
                }
            }
        }
    }
}

#[test]
fn test_voice_manager() {
    let mut vm = VoiceManager::new(8);

    assert_eq!(vm.active_voice_count(), 0);

    vm.note_on(60);
    assert_eq!(vm.active_voice_count(), 1);

    vm.note_on(64);
    vm.note_on(67);
    assert_eq!(vm.active_voice_count(), 3);

    vm.note_off(60);
    // Voice is still active during release
    assert_eq!(vm.active_voice_count(), 3);

    vm.panic();
    assert_eq!(vm.active_voice_count(), 0);
}

#[test]
fn noise_generator_follows_its_recurrence() {
    let mut noise = NoiseGen::new();
    assert_eq!(noise.tick(), 3554416254);
    assert_eq!(noise.tick(), 2802067423);
    assert_eq!(noise.tick(), 3596950572);
    assert_eq!(noise.tick(), 229283573);
    let mut other = NoiseGen::default();
    assert_eq!(other.tick(), 3554416254);
}

#[test]
fn noise_samples_lie_between_minus_one_and_one() {
    let mut noise = NoiseGen::new();
    for _ in 0..1000 {
        let sample = (noise.tick() as f32 / 2147483648.0) - 1.0;
        assert!(sample >= -1.0 && sample <= 1.0);
    }
}

#[test]
fn new_voice_is_silent() {
    let voice = Voice::new();
    assert!(!voice.active);
    assert_eq!(voice.note, 0);
    assert_eq!(voice.amp_env.stage(), EnvelopeStage::Idle);
    assert_eq!(voice.filter_env.stage(), EnvelopeStage::Idle);
    assert!(voice.is_finished());
}

#[test]
fn note_on_starts_both_envelopes() {
    let mut voice = Voice::new();
    voice.note_on(60);
    assert!(voice.active);
    assert_eq!(voice.note, 60);
    assert_eq!(voice.amp_env.stage(), EnvelopeStage::Attack);
    assert_eq!(voice.filter_env.stage(), EnvelopeStage::Attack);
    assert!(!voice.is_finished());
}

#[test]
fn envelopes_of_a_voice_run_on_their_own_events() {
    let mut voice = Voice::new();
    voice.note_on(60);
    voice.tick(true, false);
    assert_eq!(voice.amp_env.stage(), EnvelopeStage::Decay);
    assert_eq!(voice.filter_env.stage(), EnvelopeStage::Attack);
    voice.tick(false, true);
    assert_eq!(voice.amp_env.stage(), EnvelopeStage::Decay);
    assert_eq!(voice.filter_env.stage(), EnvelopeStage::Decay);
}

#[test]
fn voice_ends_when_the_amp_envelope_is_idle() {
    let mut voice = Voice::new();
    voice.note_on(72);
    voice.note_off();
    assert!(voice.active);
    assert_eq!(voice.amp_env.stage(), EnvelopeStage::Release);
    // the filter envelope ends first: the voice goes on
    voice.tick(false, true);
    assert!(voice.active);
    assert_eq!(voice.filter_env.stage(), EnvelopeStage::Idle);
    // the amplitude envelope ends: so does the voice
    voice.tick(true, false);
    assert!(!voice.active);
    assert!(voice.is_finished());
    assert_eq!(voice.note, 72);
}

#[test]
fn silent_voice_ignores_ticks() {
    let mut voice = Voice::new();
    voice.filter_env.trigger();
    voice.tick(true, true);
    assert!(!voice.active);
    assert_eq!(voice.filter_env.stage(), EnvelopeStage::Attack);
    assert_eq!(voice.amp_env.stage(), EnvelopeStage::Idle);
}

#[test]
fn voice_reset_silences_at_once() {
    let mut voice = Voice::new();
    voice.note_on(81);
    voice.tick(true, true);
    voice.reset();
    assert_eq!(voice, Voice::new());
}

#[test]
fn notes_take_the_voices_in_order() {
    let mut vm = VoiceManager::new(4);
    assert_eq!(vm.num_voices(), 4);
    assert_eq!(vm.note_on(60), Some(0));
    assert_eq!(vm.note_on(64), Some(1));
    assert_eq!(vm.note_on(67), Some(2));
    assert_eq!(vm.note_on(71), Some(3));
    assert_eq!(vm.active_voice_count(), 4);
    for (index, note) in [60u8, 64, 67, 71].iter().enumerate() {
        let voice = vm.voice(index).unwrap();
        assert!(voice.active);
        assert_eq!(voice.note, *note);
    }
    assert_eq!(vm.voice(4), None);
}

#[test]
fn pool_of_n_voices_plays_n_notes_and_steals_for_the_next() {
    for n in 1..=8usize {
        let mut vm = VoiceManager::new(n);
        for k in 0..n {
            assert_eq!(vm.note_on(40 + k as u8), Some(k));
            assert_eq!(vm.active_voice_count(), k + 1);
        }
        // one more: the first voice is stolen, the count stays
        assert_eq!(vm.note_on(100), Some(0));
        assert_eq!(vm.active_voice_count(), n);
        assert_eq!(vm.voice(0).unwrap().note, 100);
        for k in 1..n {
            assert_eq!(vm.voice(k).unwrap().note, 40 + k as u8);
        }
    }
}

#[test]
fn retrigger_reuses_the_voice() {
    let mut vm = VoiceManager::new(8);
    assert_eq!(vm.note_on(60), Some(0));
    assert_eq!(vm.note_on(64), Some(1));
    vm.tick_voice(1, true, true);
    assert_eq!(vm.voice(1).unwrap().amp_env.stage(), EnvelopeStage::Decay);
    assert_eq!(vm.note_on(64), Some(1));
    assert_eq!(vm.active_voice_count(), 2);
    assert_eq!(vm.voice(1).unwrap().amp_env.stage(), EnvelopeStage::Attack);
    assert_eq!(vm.voice(1).unwrap().filter_env.stage(), EnvelopeStage::Attack);
}

#[test]
fn freed_voice_is_taken_before_any_is_stolen() {
    let mut vm = VoiceManager::new(3);
    vm.note_on(60);
    vm.note_on(62);
    vm.note_on(64);
    // voice 1 ends
    assert_eq!(vm.note_off(62), vec![1]);
    vm.tick_voice(1, true, true);
    assert!(!vm.voice(1).unwrap().active);
    assert_eq!(vm.active_voice_count(), 2);
    assert_eq!(vm.allocate_voice(), Some(1));
    assert_eq!(vm.note_on(65), Some(1));
    assert_eq!(vm.active_voice_count(), 3);
    assert_eq!(vm.allocate_voice(), Some(0));
}

#[test]
fn empty_pool_plays_nothing() {
    let mut vm = VoiceManager::new(0);
    assert_eq!(vm.num_voices(), 0);
    assert_eq!(vm.allocate_voice(), None);
    assert_eq!(vm.note_on(60), None);
    assert_eq!(vm.note_off(60), Vec::<usize>::new());
    assert_eq!(vm.active_voice_count(), 0);
    vm.all_notes_off();
    vm.panic();
    vm.tick_voice(0, true, true);
    assert_eq!(vm.voice(0), None);
}

#[test]
fn note_off_releases_every_voice_that_sounds_the_note() {
    let mut vm = VoiceManager::new(4);
    vm.note_on(60);
    vm.note_on(64);
    // voice 0 ends and takes another note
    vm.note_off(60);
    vm.tick_voice(0, true, true);
    assert_eq!(vm.note_on(67), Some(0));
    assert_eq!(vm.note_off(64), vec![1]);
    assert_eq!(vm.voice(1).unwrap().amp_env.stage(), EnvelopeStage::Release);
    assert_eq!(vm.voice(0).unwrap().amp_env.stage(), EnvelopeStage::Attack);
    // a note that no voice sounds releases none
    assert_eq!(vm.note_off(99), Vec::<usize>::new());
    // a voice that has ended is not released again
    vm.tick_voice(1, true, true);
    assert_eq!(vm.note_off(64), Vec::<usize>::new());
}

#[test]
fn all_notes_off_releases_every_voice() {
    let mut vm = VoiceManager::new(3);
    vm.note_on(60);
    vm.note_on(64);
    vm.all_notes_off();
    assert_eq!(vm.voice(0).unwrap().amp_env.stage(), EnvelopeStage::Release);
    assert_eq!(vm.voice(1).unwrap().amp_env.stage(), EnvelopeStage::Release);
    assert_eq!(vm.voice(2).unwrap().amp_env.stage(), EnvelopeStage::Idle);
    assert_eq!(vm.active_voice_count(), 2);
}

#[test]
fn tick_past_the_pool_is_ignored() {
    let mut vm = VoiceManager::new(2);
    vm.note_on(60);
    vm.tick_voice(2, true, true);
    vm.tick_voice(usize::MAX, true, true);
    assert_eq!(vm.voice(0).unwrap().amp_env.stage(), EnvelopeStage::Attack);
    assert_eq!(vm.active_voice_count(), 1);
}

#[test]
fn note_sounds_until_its_release_has_ended() {
    // eight voices at 44100 Hz with the default envelope times
    let sample_rate = 44100.0f32;
    let mut vm = VoiceManager::new(8);
    let mut amp: Vec<Level> = (0..8).map(|_| Level::new(sample_rate)).collect();
    let mut filter: Vec<Level> = (0..8)
        .map(|_| {
            let mut level = Level::new(sample_rate);
            level.decay = 0.2;
            level.sustain = 0.3;
            level
        })
        .collect();

    let voice = vm.note_on(60).unwrap();
    assert_eq!(voice, 0);

    let mut heard = false;
    for _ in 0..1000 {
        for i in 0..vm.num_voices() {
            let state = vm.voice(i).unwrap();
            if state.active {
                let filter_reached = filter[i].step(state.filter_env.stage());
                let amp_reached = amp[i].step(state.amp_env.stage());
                assert!(amp[i].level.is_finite());
                heard = heard || amp[i].level != 0.0;
                vm.tick_voice(i, amp_reached, filter_reached);
            }
        }
    }
    assert!(heard);
    assert_eq!(vm.active_voice_count(), 1);

    for i in vm.note_off(60) {
        let state = vm.voice(i).unwrap();
        amp[i].released(state.amp_env.stage());
        filter[i].released(state.filter_env.stage());
    }
    assert_eq!(vm.active_voice_count(), 1);

    // attack + decay + release, and a small margin
    let bound = ((0.01 + 0.1 + 0.3) * sample_rate) as usize + 100;
    let mut samples = 0;
    while vm.active_voice_count() > 0 {
        assert!(samples < bound);
        for i in 0..vm.num_voices() {
            let state = vm.voice(i).unwrap();
            if state.active {
                let filter_reached = filter[i].step(state.filter_env.stage());
                let amp_reached = amp[i].step(state.amp_env.stage());
                vm.tick_voice(i, amp_reached, filter_reached);
            }
        }
        samples += 1;
    }
    assert_eq!(vm.active_voice_count(), 0);
    assert!(vm.voice(0).unwrap().is_finished());
}

/// The voice that the allocation policy gives a note, worked out from the
/// states of the voices alone.
fn expected_voice(vm: &VoiceManager, note: u8) -> Option<usize> {
    let voices: Vec<Voice> = (0..vm.num_voices()).map(|i| vm.voice(i).unwrap()).collect();
    if let Some(i) = voices.iter().position(|v| v.active && v.note == note) {
        return Some(i);
    }
    if let Some(i) = voices.iter().position(|v| !v.active) {
        return Some(i);
    }
    if voices.is_empty() {
        None
    } else {
        Some(0)
    }
}

#[test]
fn pool_follows_its_policy_through_a_long_run() {
    let mut noise = NoiseGen::new();
    let mut vm = VoiceManager::new(5);
    for _ in 0..20000 {
        let draw = noise.tick() >> 8;
        let note = 60 + ((draw >> 4) % 7) as u8;
        match draw % 16 {
            0..=4 => {
                let expected = expected_voice(&vm, note);
                let before = vm.active_voice_count();
                let was_free = expected.map(|i| !vm.voice(i).unwrap().active).unwrap_or(false);
                assert_eq!(vm.note_on(note), expected);
                let voice = vm.voice(expected.unwrap()).unwrap();
                assert!(voice.active);
                assert_eq!(voice.note, note);
                assert_eq!(voice.amp_env.stage(), EnvelopeStage::Attack);
                assert_eq!(vm.active_voice_count(), before + usize::from(was_free));
            }
            5..=7 => {
                let playing: Vec<usize> = (0..vm.num_voices())
                    .filter(|&i| {
                        let v = vm.voice(i).unwrap();
                        v.active && v.note == note
                    })
                    .collect();
                let before = vm.active_voice_count();
                assert_eq!(vm.note_off(note), playing);
                assert_eq!(vm.active_voice_count(), before);
                for i in playing {
                    assert_eq!(vm.voice(i).unwrap().amp_env.stage(), EnvelopeStage::Release);
                }
            }
            8 => {
                if (draw >> 12) % 64 == 0 {
                    vm.panic();
                    assert_eq!(vm.active_voice_count(), 0);
                }
            }
            9 => {
                if (draw >> 12) % 16 == 0 {
                    vm.all_notes_off();
                }
            }
            _ => {
                let index = ((draw >> 8) % 6) as usize;
                let before = vm.voice(index);
                vm.tick_voice(index, (draw >> 16) % 8 == 0, (draw >> 20) % 8 == 0);
                if let (Some(before), Some(after)) = (before, vm.voice(index)) {
                    assert_eq!(after.note, before.note);
                    assert!(before.active || !after.active);
                }
            }
        }
        // what holds of every state
        let mut active = 0;
        for i in 0..vm.num_voices() {
            let voice = vm.voice(i).unwrap();
            if voice.active {
                active += 1;
                assert!(!voice.amp_env.is_idle());
            }
        }
        assert_eq!(vm.active_voice_count(), active);
        assert!(active <= 5);
        assert_eq!(vm.num_voices(), 5);
    }
}
