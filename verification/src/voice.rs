//! The subtractive voice and its pool: which voice plays which note, and
//! for how long a voice sounds.

use crate::envelope::{reached_count, Envelope, EnvelopeStage};
use crate::pool::{
    active_count, all_free, allocates, count_active, find_voice, find_voice_for,
    lemma_active_count_bounds, lemma_note_on_count, none_free, none_playing, playing_voices,
    plays, takes_note, PoolVoice,
};
use vstd::prelude::*;

verus! {

/// The state after `state` of the linear congruential generator behind the
/// noise source.
pub open spec fn lcg_next(state: u32) -> u32 {
    ((state as int * 1103515245 + 12345) % 0x1_0000_0000) as u32
}

/// Simple noise generator: the integer state of a white-noise source. The
/// host scales the state that `tick` returns to a sample.
#[derive(Debug, Clone, Copy, PartialEq, Eq, Structural, Hash)]
pub struct NoiseGen {
    state: u32,
}

impl View for NoiseGen {
    type V = u32;

    closed spec fn view(&self) -> u32 {
        self.state
    }
}

impl NoiseGen {
    pub fn new() -> (r: Self)
        ensures
            r@ == 12345,
    {
        NoiseGen { state: 12345 }
    }

    /// Advance the generator and return its new state. All 32 bits are
    /// returned: state `s` stands for the sample `s / 2^31 - 1`.
    #[inline]
    pub fn tick(&mut self) -> (r: u32)
        ensures
            final(self)@ == lcg_next(old(self)@),
            r == final(self)@,
    {
        let product: u32 = self.state.wrapping_mul(1103515245);
        proof {
            let full: int = self.state as int * 1103515245;
            assert(product as int == full % 0x1_0000_0000);
            assert((full + 12345) % 0x1_0000_0000 == (full % 0x1_0000_0000 + 12345)
                % 0x1_0000_0000) by {
                vstd::arithmetic::div_mod::lemma_add_mod_noop(full, 12345, 0x1_0000_0000);
                vstd::arithmetic::div_mod::lemma_small_mod(12345, 0x1_0000_0000);
            }
        }
        self.state = product.wrapping_add(12345);
        self.state
    }
}

/// Two different states have different successors: the noise source never
/// merges two of its sequences.
pub proof fn lemma_noise_injective(a: u32, b: u32)
    by (bit_vector)
    requires
        lcg_next(a) == lcg_next(b),
    ensures
        a == b,
{
}

impl Default for NoiseGen {
    fn default() -> (r: Self)
        ensures
            r@ == 12345,
    {
        NoiseGen::new()
    }
}

/// A single synth voice (monophonic unit): the note it plays, whether it
/// is sounding, and the stages of its two envelopes.
#[derive(Debug, Clone, Copy, PartialEq, Eq, Structural, Hash)]
pub struct Voice {
    /// The envelope that shapes the loudness.
    pub amp_env: Envelope,
    /// The envelope that moves the filter cutoff.
    pub filter_env: Envelope,
    /// MIDI note number (0-127).
    pub note: u8,
    /// Is this voice currently active?
    pub active: bool,
}

impl Voice {
    /// A silent voice.
    pub open spec fn spec_new() -> Voice {
        Voice {
            amp_env: Envelope { stage: EnvelopeStage::Idle },
            filter_env: Envelope { stage: EnvelopeStage::Idle },
            note: 0,
            active: false,
        }
    }

    /// The voice after it was given a note: it sounds, and both envelopes
    /// start their attack.
    pub open spec fn spec_note_on(self, note: u8) -> Voice {
        Voice {
            amp_env: Envelope { stage: self.amp_env.stage.after_trigger() },
            filter_env: Envelope { stage: self.filter_env.stage.after_trigger() },
            note,
            active: true,
        }
    }

    /// The voice after its note was released: both envelopes start their
    /// release, and the voice goes on sounding.
    pub open spec fn spec_note_off(self) -> Voice {
        Voice {
            amp_env: Envelope { stage: self.amp_env.stage.after_release() },
            filter_env: Envelope { stage: self.filter_env.stage.after_release() },
            note: self.note,
            active: self.active,
        }
    }

    /// The voice after one sample. A voice that is not sounding is left
    /// alone. A sounding voice advances both envelopes, and goes on
    /// sounding unless its amplitude envelope is then idle.
    pub open spec fn spec_tick(self, amp_reached: bool, filter_reached: bool) -> Voice {
        if self.active {
            Voice {
                amp_env: Envelope { stage: self.amp_env.stage.after_tick(amp_reached) },
                filter_env: Envelope { stage: self.filter_env.stage.after_tick(filter_reached) },
                note: self.note,
                active: self.amp_env.stage.after_tick(amp_reached) != EnvelopeStage::Idle,
            }
        } else {
            self
        }
    }

    /// The voice after a run of samples. Each event holds what the
    /// amplitude envelope and the filter envelope reached in one sample.
    pub open spec fn spec_ticks(self, events: Seq<(bool, bool)>) -> Voice
        decreases events.len(),
    {
        if events.len() == 0 {
            self
        } else {
            self.spec_ticks(events.drop_last()).spec_tick(events.last().0, events.last().1)
        }
    }

    /// A sounding voice has an amplitude envelope that is not idle.
    pub open spec fn wf(self) -> bool {
        self.active ==> self.amp_env.stage != EnvelopeStage::Idle
    }

    pub fn new() -> (r: Self)
        ensures
            r == Voice::spec_new(),
            r.wf(),
    {
        Voice { amp_env: Envelope::new(), filter_env: Envelope::new(), note: 0, active: false }
    }

    /// Start a note.
    pub fn note_on(&mut self, note: u8)
        ensures
            *final(self) == old(self).spec_note_on(note),
            final(self).wf(),
    {
        self.note = note;
        self.active = true;
        self.amp_env.trigger();
        self.filter_env.trigger();
    }

    /// Release a note.
    pub fn note_off(&mut self)
        ensures
            *final(self) == old(self).spec_note_off(),
            old(self).wf() ==> final(self).wf(),
    {
        self.amp_env.release();
        self.filter_env.release();
    }

    /// Check if voice is finished and can be reused.
    pub fn is_finished(&self) -> (r: bool)
        ensures
            r == (self.amp_env.stage == EnvelopeStage::Idle),
    {
        self.amp_env.is_idle()
    }

    /// Advance by one sample. `amp_reached` and `filter_reached` say
    /// whether the level of the amplitude envelope and of the filter
    /// envelope reached the target of their stage in this sample. The voice
    /// stops sounding exactly when its amplitude envelope becomes idle.
    pub fn tick(&mut self, amp_reached: bool, filter_reached: bool)
        ensures
            *final(self) == old(self).spec_tick(amp_reached, filter_reached),
            final(self).active == (old(self).active && final(self).amp_env.stage
                != EnvelopeStage::Idle),
            final(self).wf(),
    {
        if !self.active {
            return ;
        }
        self.filter_env.tick(filter_reached);
        self.amp_env.tick(amp_reached);
        if self.amp_env.is_idle() {
            self.active = false;
        }
    }

    /// Stop at once: no note, no sound, both envelopes idle.
    pub fn reset(&mut self)
        ensures
            *final(self) == Voice::spec_new(),
            final(self).wf(),
    {
        self.amp_env.reset();
        self.filter_env.reset();
        self.active = false;
        self.note = 0;
    }
}

impl PoolVoice for Voice {
    open spec fn sounding(&self) -> bool {
        self.active
    }

    open spec fn pitch(&self) -> u8 {
        self.note
    }

    fn is_sounding(&self) -> (r: bool) {
        self.active
    }

    fn sounding_note(&self) -> (r: u8) {
        self.note
    }
}

/// What the amplitude envelope reached, sample by sample.
pub open spec fn amp_events(events: Seq<(bool, bool)>) -> Seq<bool> {
    events.map_values(|e: (bool, bool)| e.0)
}

/// What the filter envelope reached, sample by sample.
pub open spec fn filter_events(events: Seq<(bool, bool)>) -> Seq<bool> {
    events.map_values(|e: (bool, bool)| e.1)
}

/// While a voice sounds, its envelopes run each on its own events, and the
/// voice keeps its note.
pub proof fn lemma_voice_ticks(voice: Voice, events: Seq<(bool, bool)>)
    requires
        voice.wf(),
    ensures
        voice.spec_ticks(events).wf(),
        voice.spec_ticks(events).note == voice.note,
        voice.spec_ticks(events).active ==> voice.active,
        voice.spec_ticks(events).active ==> voice.spec_ticks(events).amp_env.stage
            == voice.amp_env.stage.after_ticks(amp_events(events)),
        voice.spec_ticks(events).active ==> voice.spec_ticks(events).filter_env.stage
            == voice.filter_env.stage.after_ticks(filter_events(events)),
        voice.active ==> (voice.spec_ticks(events).active <==> voice.amp_env.stage.after_ticks(
            amp_events(events),
        ) != EnvelopeStage::Idle),
    decreases events.len(),
{
    if events.len() > 0 {
        let init = events.drop_last();
        lemma_voice_ticks(voice, init);
        assert(amp_events(events).drop_last() == amp_events(init));
        assert(filter_events(events).drop_last() == filter_events(init));
        assert(amp_events(events).last() == events.last().0);
        assert(filter_events(events).last() == events.last().1);
    }
}

/// A note sounds for as long as it is held, and after its release until
/// the amplitude envelope has reached silence: the voice is sounding after
/// the held samples whatever the envelopes reached in them, and after the
/// samples that follow the release exactly if the amplitude envelope did
/// not reach its target in any of them.
pub proof fn lemma_note_lifetime(
    voice: Voice,
    note: u8,
    held: Seq<(bool, bool)>,
    released: Seq<(bool, bool)>,
)
    ensures
        voice.spec_note_on(note).spec_ticks(held).active,
        voice.spec_note_on(note).spec_ticks(held).note == note,
        voice.spec_note_on(note).spec_ticks(held).spec_note_off().spec_ticks(released).active
            == (reached_count(amp_events(released)) == 0),
{
    let started = voice.spec_note_on(note);
    crate::envelope::lemma_triggered_stages(voice.amp_env.stage, amp_events(held));
    lemma_voice_ticks(started, held);
    let playing = started.spec_ticks(held);
    let ending = playing.spec_note_off();
    crate::envelope::lemma_released_stages(playing.amp_env.stage, amp_events(released));
    lemma_voice_ticks(ending, released);
}

/// Polyphonic voice manager: a pool of voices of a fixed size.
pub struct VoiceManager {
    voices: Vec<Voice>,
}

impl View for VoiceManager {
    type V = Seq<Voice>;

    closed spec fn view(&self) -> Seq<Voice> {
        self.voices@
    }
}

/// Every sounding voice of the pool has an amplitude envelope that is not
/// idle. A new pool is so, and whatever is done to a pool leaves it so.
pub open spec fn pool_wf(voices: Seq<Voice>) -> bool {
    forall|i: int| 0 <= i < voices.len() ==> (#[trigger] voices[i]).wf()
}

/// The pool after a note was played on voice `i`.
pub open spec fn pool_note_on(voices: Seq<Voice>, note: u8, i: int) -> Seq<Voice> {
    voices.update(i, voices[i].spec_note_on(note))
}

/// The pool after a note was released: every voice that is sounding the
/// note starts its release.
pub open spec fn pool_note_off(voices: Seq<Voice>, note: u8) -> Seq<Voice> {
    Seq::new(
        voices.len(),
        |i: int|
            if plays(voices[i], note) {
                voices[i].spec_note_off()
            } else {
                voices[i]
            },
    )
}

impl VoiceManager {
    /// A pool of `num_voices` silent voices.
    pub fn new(num_voices: usize) -> (r: Self)
        ensures
            r@.len() == num_voices,
            forall|i: int| 0 <= i < num_voices ==> r@[i] == Voice::spec_new(),
            all_free(r@),
            pool_wf(r@),
    {
        let mut voices: Vec<Voice> = Vec::new();
        let mut i: usize = 0;
        while i < num_voices
            invariant
                i <= num_voices,
                voices@.len() == i,
                forall|j: int| 0 <= j < i ==> voices@[j] == Voice::spec_new(),
            decreases num_voices - i,
        {
            voices.push(Voice::new());
            i += 1;
        }
        VoiceManager { voices }
    }

    /// The number of voices in the pool.
    pub fn num_voices(&self) -> (r: usize)
        ensures
            r == self@.len(),
    {
        self.voices.len()
    }

    /// The voice at `index`, if the pool has one there.
    pub fn voice(&self, index: usize) -> (r: Option<Voice>)
        ensures
            r == (if index < self@.len() {
                Some(self@[index as int])
            } else {
                None
            }),
    {
        if index < self.voices.len() {
            Some(self.voices[index])
        } else {
            None
        }
    }

    /// Find a free voice or steal the oldest one: the first free voice of
    /// the pool, else its first voice. An empty pool has none.
    pub fn allocate_voice(&self) -> (r: Option<usize>)
        ensures
            match r {
                Some(i) => allocates(self@, i as int),
                None => self@.len() == 0,
            },
    {
        find_voice(&self.voices)
    }

    /// Start a new note, and return the voice that plays it. A note that
    /// is sounding is played again on its voice; another note takes the
    /// voice that `allocate_voice` finds. In an empty pool nothing happens.
    pub fn note_on(&mut self, note: u8) -> (r: Option<usize>)
        ensures
            match r {
                Some(i) => takes_note(old(self)@, note, i as int) && final(self)@ == pool_note_on(
                    old(self)@,
                    note,
                    i as int,
                ),
                None => old(self)@.len() == 0 && final(self)@ == old(self)@,
            },
            final(self)@.len() == old(self)@.len(),
            active_count(final(self)@) == active_count(old(self)@) + (if none_playing(
                old(self)@,
                note,
            ) && !none_free(old(self)@) {
                1nat
            } else {
                0nat
            }),
            active_count(final(self)@) <= final(self)@.len(),
            pool_wf(old(self)@) ==> pool_wf(final(self)@),
    {
        match find_voice_for(&self.voices, note) {
            Some(i) => {
                proof {
                    lemma_note_on_count(
                        self.voices@,
                        note,
                        i as int,
                        self.voices@[i as int].spec_note_on(note),
                    );
                }
                self.voices[i].note_on(note);
                Some(i)
            },
            None => {
                proof {
                    lemma_active_count_bounds(self.voices@);
                }
                None
            },
        }
    }

    /// Release a note: every voice that is sounding it starts its release.
    /// Returns those voices, in ascending order.
    pub fn note_off(&mut self, note: u8) -> (r: Vec<usize>)
        ensures
            final(self)@ == pool_note_off(old(self)@, note),
            r@ == playing_voices(old(self)@, note),
            pool_wf(old(self)@) ==> pool_wf(final(self)@),
    {
        let mut released: Vec<usize> = Vec::new();
        let mut i: usize = 0;
        while i < self.voices.len()
            invariant
                i <= self.voices@.len(),
                self.voices@.len() == old(self).voices@.len(),
                forall|j: int|
                    0 <= j < i ==> self.voices@[j] == pool_note_off(old(self).voices@, note)[j],
                forall|j: int|
                    i <= j < self.voices@.len() ==> self.voices@[j] == old(self).voices@[j],
                released@ == playing_voices(old(self).voices@.take(i as int), note),
            decreases self.voices@.len() - i,
        {
            assert(old(self).voices@.take(i + 1).drop_last() == old(self).voices@.take(i as int));
            if self.voices[i].active && self.voices[i].note == note {
                self.voices[i].note_off();
                released.push(i);
            }
            i += 1;
        }
        assert(old(self).voices@.take(i as int) == old(self).voices@);
        assert(self.voices@ == pool_note_off(old(self).voices@, note));
        assert(pool_wf(old(self).voices@) ==> pool_wf(self.voices@)) by {
            if pool_wf(old(self).voices@) {
                assert forall|j: int| 0 <= j < self.voices@.len() implies (
                #[trigger] self.voices@[j]).wf() by {
                    assert(old(self).voices@[j].wf());
                }
            }
        }
        released
    }

    /// Release all notes: every voice of the pool starts its release.
    pub fn all_notes_off(&mut self)
        ensures
            final(self)@.len() == old(self)@.len(),
            forall|i: int|
                0 <= i < old(self)@.len() ==> final(self)@[i] == old(self)@[i].spec_note_off(),
            pool_wf(old(self)@) ==> pool_wf(final(self)@),
    {
        let mut i: usize = 0;
        while i < self.voices.len()
            invariant
                i <= self.voices@.len(),
                self.voices@.len() == old(self).voices@.len(),
                forall|j: int|
                    0 <= j < i ==> self.voices@[j] == old(self).voices@[j].spec_note_off(),
                forall|j: int|
                    i <= j < self.voices@.len() ==> self.voices@[j] == old(self).voices@[j],
            decreases self.voices@.len() - i,
        {
            self.voices[i].note_off();
            i += 1;
        }
    }

    /// Panic - immediately stop all voices.
    pub fn panic(&mut self)
        ensures
            final(self)@.len() == old(self)@.len(),
            forall|i: int| 0 <= i < old(self)@.len() ==> final(self)@[i] == Voice::spec_new(),
            all_free(final(self)@),
            active_count(final(self)@) == 0,
            pool_wf(final(self)@),
    {
        let mut i: usize = 0;
        while i < self.voices.len()
            invariant
                i <= self.voices@.len(),
                self.voices@.len() == old(self).voices@.len(),
                forall|j: int| 0 <= j < i ==> self.voices@[j] == Voice::spec_new(),
            decreases self.voices@.len() - i,
        {
            self.voices[i].reset();
            i += 1;
        }
        proof {
            lemma_active_count_bounds(self.voices@);
        }
    }

    /// Get number of currently active voices.
    pub fn active_voice_count(&self) -> (r: usize)
        ensures
            r == active_count(self@),
            r <= self@.len(),
    {
        count_active(&self.voices)
    }

    /// Advance the voice at `index` by one sample; see `Voice::tick`. An
    /// index past the pool is ignored.
    pub fn tick_voice(&mut self, index: usize, amp_reached: bool, filter_reached: bool)
        ensures
            final(self)@ == (if index < old(self)@.len() {
                old(self)@.update(
                    index as int,
                    old(self)@[index as int].spec_tick(amp_reached, filter_reached),
                )
            } else {
                old(self)@
            }),
            pool_wf(old(self)@) ==> pool_wf(final(self)@),
    {
        if index < self.voices.len() {
            self.voices[index].tick(amp_reached, filter_reached);
        }
    }
}

} // verus!
