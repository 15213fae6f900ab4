//! The voice pools of the four-operator and of the six-operator engine.
//!
//! Both pools follow the allocation policy of `crate::pool`, and hand every
//! change of the algorithm to all their voices alike.

use crate::fm::algorithm::FmAlgorithm;
use crate::fm::dx7::Dx7Algorithm;
use crate::fm::voice::{Fm4OpVoice, Fm6OpVoice};
use crate::pool::{
    active_count, all_free, allocates, count_active, find_voice, find_voice_for,
    lemma_active_count_bounds, lemma_note_on_count, none_free, none_playing, playing_voices,
    plays, takes_note,
};
use vstd::prelude::*;

verus! {

/// Four-operator FM voice manager (polyphonic): a pool of voices of a
/// fixed size.
pub struct Fm4OpVoiceManager {
    voices: Vec<Fm4OpVoice>,
}

impl View for Fm4OpVoiceManager {
    type V = Seq<Fm4OpVoice>;

    closed spec fn view(&self) -> Seq<Fm4OpVoice> {
        self.voices@
    }
}

impl Fm4OpVoiceManager {
    /// The algorithm that the pool reports: that of its first voice, and
    /// the first algorithm for an empty pool.
    pub open spec fn spec_algorithm(self) -> FmAlgorithm {
        if self@.len() == 0 {
            FmAlgorithm::Algo1Serial
        } else {
            self@[0].algorithm
        }
    }

    /// A pool of `num_voices` silent voices.
    pub fn new(num_voices: usize) -> (r: Self)
        ensures
            r@.len() == num_voices,
            forall|i: int| 0 <= i < num_voices ==> r@[i] == Fm4OpVoice::spec_new(),
            all_free(r@),
    {
        let mut voices: Vec<Fm4OpVoice> = Vec::new();
        let mut i: usize = 0;
        while i < num_voices
            invariant
                i <= num_voices,
                voices@.len() == i,
                forall|j: int| 0 <= j < i ==> voices@[j] == Fm4OpVoice::spec_new(),
            decreases num_voices - i,
        {
            voices.push(Fm4OpVoice::new());
            i += 1;
        }
        Fm4OpVoiceManager { voices }
    }

    /// The number of voices in the pool.
    pub fn num_voices(&self) -> (r: usize)
        ensures
            r == self@.len(),
    {
        self.voices.len()
    }

    /// The voice at `index`, if the pool has one there.
    pub fn voice(&self, index: usize) -> (r: Option<Fm4OpVoice>)
        ensures
            r == (if index < self@.len() {
                Some(self@[index as int])
            } else {
                None
            }),
    {
        if index < self.voices.len() {
            Some(self.voices[index])
        } else {
            None
        }
    }

    /// Find a free voice or steal the oldest one: the first free voice of
    /// the pool, else its first voice. An empty pool has none.
    pub fn allocate_voice(&self) -> (r: Option<usize>)
        ensures
            match r {
                Some(i) => allocates(self@, i as int),
                None => self@.len() == 0,
            },
    {
        find_voice(&self.voices)
    }

    /// Start a note, and return the voice that plays it. A note that is
    /// sounding is played again on its voice; another note takes the voice
    /// that `allocate_voice` finds. In an empty pool nothing happens.
    pub fn note_on(&mut self, note: u8) -> (r: Option<usize>)
        ensures
            match r {
                Some(i) => takes_note(old(self)@, note, i as int) && final(self)@ == old(
                    self,
                )@.update(i as int, old(self)@[i as int].spec_note_on(note)),
                None => old(self)@.len() == 0 && final(self)@ == old(self)@,
            },
            final(self)@.len() == old(self)@.len(),
            active_count(final(self)@) == active_count(old(self)@) + (if none_playing(
                old(self)@,
                note,
            ) && !none_free(old(self)@) {
                1nat
            } else {
                0nat
            }),
            active_count(final(self)@) <= final(self)@.len(),
    {
        match find_voice_for(&self.voices, note) {
            Some(i) => {
                proof {
                    lemma_note_on_count(
                        self.voices@,
                        note,
                        i as int,
                        self.voices@[i as int].spec_note_on(note),
                    );
                }
                self.voices[i].note_on(note);
                Some(i)
            },
            None => {
                proof {
                    lemma_active_count_bounds(self.voices@);
                }
                None
            },
        }
    }

    /// Release a note: every voice that is sounding it starts its release.
    /// Returns those voices, in ascending order.
    pub fn note_off(&mut self, note: u8) -> (r: Vec<usize>)
        ensures
            final(self)@.len() == old(self)@.len(),
            forall|i: int|
                0 <= i < old(self)@.len() ==> #[trigger] final(self)@[i] == (if plays(
                    old(self)@[i],
                    note,
                ) {
                    old(self)@[i].spec_note_off()
                } else {
                    old(self)@[i]
                }),
            r@ == playing_voices(old(self)@, note),
    {
        let mut released: Vec<usize> = Vec::new();
        let mut i: usize = 0;
        while i < self.voices.len()
            invariant
                i <= self.voices@.len(),
                self.voices@.len() == old(self).voices@.len(),
                forall|j: int|
                    0 <= j < i ==> #[trigger] self.voices@[j] == (if plays(
                        old(self).voices@[j],
                        note,
                    ) {
                        old(self).voices@[j].spec_note_off()
                    } else {
                        old(self).voices@[j]
                    }),
                forall|j: int|
                    i <= j < self.voices@.len() ==> self.voices@[j] == old(self).voices@[j],
                released@ == playing_voices(old(self).voices@.take(i as int), note),
            decreases self.voices@.len() - i,
        {
            assert(old(self).voices@.take(i + 1).drop_last() == old(self).voices@.take(i as int));
            if self.voices[i].is_active() && self.voices[i].note() == note {
                self.voices[i].note_off();
                released.push(i);
            }
            i += 1;
        }
        assert(old(self).voices@.take(i as int) == old(self).voices@);
        released
    }

    /// Panic - immediately stop all voices. Each keeps its algorithm.
    pub fn panic(&mut self)
        ensures
            final(self)@.len() == old(self)@.len(),
            forall|i: int|
                0 <= i < old(self)@.len() ==> #[trigger] final(self)@[i] == old(
                    self,
                )@[i].spec_reset(),
            all_free(final(self)@),
            active_count(final(self)@) == 0,
    {
        let mut i: usize = 0;
        while i < self.voices.len()
            invariant
                i <= self.voices@.len(),
                self.voices@.len() == old(self).voices@.len(),
                forall|j: int|
                    0 <= j < i ==> #[trigger] self.voices@[j] == old(self).voices@[j].spec_reset(),
                forall|j: int|
                    i <= j < self.voices@.len() ==> self.voices@[j] == old(self).voices@[j],
            decreases self.voices@.len() - i,
        {
            self.voices[i].reset();
            i += 1;
        }
        proof {
            lemma_active_count_bounds(self.voices@);
        }
    }

    /// Get number of currently active voices.
    pub fn active_voice_count(&self) -> (r: usize)
        ensures
            r == active_count(self@),
            r <= self@.len(),
    {
        count_active(&self.voices)
    }

    /// Advance the voice at `index` by one sample; see `Fm4OpVoice::tick`. An
    /// index past the pool is ignored.
    pub fn tick_voice(&mut self, index: usize, reached: [bool; 4])
        ensures
            final(self)@ == (if index < old(self)@.len() {
                old(self)@.update(index as int, old(self)@[index as int].spec_tick(reached))
            } else {
                old(self)@
            }),
    {
        if index < self.voices.len() {
            self.voices[index].tick(reached);
        }
    }

    /// Set algorithm for all voices. Notes and envelopes go on as they are.
    pub fn set_algorithm(&mut self, algo: FmAlgorithm)
        ensures
            final(self)@.len() == old(self)@.len(),
            forall|i: int|
                0 <= i < old(self)@.len() ==> #[trigger] final(self)@[i] == (Fm4OpVoice {
                    algorithm: algo,
                    ..old(self)@[i]
                }),
    {
        let mut i: usize = 0;
        while i < self.voices.len()
            invariant
                i <= self.voices@.len(),
                self.voices@.len() == old(self).voices@.len(),
                forall|j: int|
                    0 <= j < i ==> #[trigger] self.voices@[j] == (Fm4OpVoice {
                        algorithm: algo,
                        ..old(self).voices@[j]
                    }),
                forall|j: int|
                    i <= j < self.voices@.len() ==> self.voices@[j] == old(self).voices@[j],
            decreases self.voices@.len() - i,
        {
            self.voices[i].algorithm = algo;
            i += 1;
        }
    }

    /// Get current algorithm, by its number: that of the first voice, and
    /// 0 for an empty pool.
    pub fn get_algorithm(&self) -> (r: u8)
        ensures
            r == self.spec_algorithm().spec_index(),
    {
        if self.voices.len() == 0 {
            0
        } else {
            self.voices[0].algorithm.index()
        }
    }
}

/// Six-operator FM voice manager (polyphonic): a pool of voices of a
/// fixed size.
pub struct Fm6OpVoiceManager {
    voices: Vec<Fm6OpVoice>,
}

impl View for Fm6OpVoiceManager {
    type V = Seq<Fm6OpVoice>;

    closed spec fn view(&self) -> Seq<Fm6OpVoice> {
        self.voices@
    }
}

impl Fm6OpVoiceManager {
    /// The algorithm that the pool reports: that of its first voice, and
    /// the first algorithm for an empty pool.
    pub open spec fn spec_algorithm(self) -> Dx7Algorithm {
        if self@.len() == 0 {
            Dx7Algorithm::Algo1
        } else {
            self@[0].algorithm
        }
    }

    /// A pool of `num_voices` silent voices.
    pub fn new(num_voices: usize) -> (r: Self)
        ensures
            r@.len() == num_voices,
            forall|i: int| 0 <= i < num_voices ==> r@[i] == Fm6OpVoice::spec_new(),
            all_free(r@),
    {
        let mut voices: Vec<Fm6OpVoice> = Vec::new();
        let mut i: usize = 0;
        while i < num_voices
            invariant
                i <= num_voices,
                voices@.len() == i,
                forall|j: int| 0 <= j < i ==> voices@[j] == Fm6OpVoice::spec_new(),
            decreases num_voices - i,
        {
            voices.push(Fm6OpVoice::new());
            i += 1;
        }
        Fm6OpVoiceManager { voices }
    }

    /// The number of voices in the pool.
    pub fn num_voices(&self) -> (r: usize)
        ensures
            r == self@.len(),
    {
        self.voices.len()
    }

    /// The voice at `index`, if the pool has one there.
    pub fn voice(&self, index: usize) -> (r: Option<Fm6OpVoice>)
        ensures
            r == (if index < self@.len() {
                Some(self@[index as int])
            } else {
                None
            }),
    {
        if index < self.voices.len() {
            Some(self.voices[index])
        } else {
            None
        }
    }

    /// Find a free voice or steal the oldest one: the first free voice of
    /// the pool, else its first voice. An empty pool has none.
    pub fn allocate_voice(&self) -> (r: Option<usize>)
        ensures
            match r {
                Some(i) => allocates(self@, i as int),
                None => self@.len() == 0,
            },
    {
        find_voice(&self.voices)
    }

    /// Start a note, and return the voice that plays it. A note that is
    /// sounding is played again on its voice; another note takes the voice
    /// that `allocate_voice` finds. In an empty pool nothing happens.
    pub fn note_on(&mut self, note: u8) -> (r: Option<usize>)
        ensures
            match r {
                Some(i) => takes_note(old(self)@, note, i as int) && final(self)@ == old(
                    self,
                )@.update(i as int, old(self)@[i as int].spec_note_on(note)),
                None => old(self)@.len() == 0 && final(self)@ == old(self)@,
            },
            final(self)@.len() == old(self)@.len(),
            active_count(final(self)@) == active_count(old(self)@) + (if none_playing(
                old(self)@,
                note,
            ) && !none_free(old(self)@) {
                1nat
            } else {
                0nat
            }),
            active_count(final(self)@) <= final(self)@.len(),
    {
        match find_voice_for(&self.voices, note) {
            Some(i) => {
                proof {
                    lemma_note_on_count(
                        self.voices@,
                        note,
                        i as int,
                        self.voices@[i as int].spec_note_on(note),
                    );
                }
                self.voices[i].note_on(note);
                Some(i)
            },
            None => {
                proof {
                    lemma_active_count_bounds(self.voices@);
                }
                None
            },
        }
    }

    /// Release a note: every voice that is sounding it starts its release.
    /// Returns those voices, in ascending order.
    pub fn note_off(&mut self, note: u8) -> (r: Vec<usize>)
        ensures
            final(self)@.len() == old(self)@.len(),
            forall|i: int|
                0 <= i < old(self)@.len() ==> #[trigger] final(self)@[i] == (if plays(
                    old(self)@[i],
                    note,
                ) {
                    old(self)@[i].spec_note_off()
                } else {
                    old(self)@[i]
                }),
            r@ == playing_voices(old(self)@, note),
    {
        let mut released: Vec<usize> = Vec::new();
        let mut i: usize = 0;
        while i < self.voices.len()
            invariant
                i <= self.voices@.len(),
                self.voices@.len() == old(self).voices@.len(),
                forall|j: int|
                    0 <= j < i ==> #[trigger] self.voices@[j] == (if plays(
                        old(self).voices@[j],
                        note,
                    ) {
                        old(self).voices@[j].spec_note_off()
                    } else {
                        old(self).voices@[j]
                    }),
                forall|j: int|
                    i <= j < self.voices@.len() ==> self.voices@[j] == old(self).voices@[j],
                released@ == playing_voices(old(self).voices@.take(i as int), note),
            decreases self.voices@.len() - i,
        {
            assert(old(self).voices@.take(i + 1).drop_last() == old(self).voices@.take(i as int));
            if self.voices[i].is_active() && self.voices[i].note() == note {
                self.voices[i].note_off();
                released.push(i);
            }
            i += 1;
        }
        assert(old(self).voices@.take(i as int) == old(self).voices@);
        released
    }

    /// Panic - immediately stop all voices. Each keeps its algorithm.
    pub fn panic(&mut self)
        ensures
            final(self)@.len() == old(self)@.len(),
            forall|i: int|
                0 <= i < old(self)@.len() ==> #[trigger] final(self)@[i] == old(
                    self,
                )@[i].spec_reset(),
            all_free(final(self)@),
            active_count(final(self)@) == 0,
    {
        let mut i: usize = 0;
        while i < self.voices.len()
            invariant
                i <= self.voices@.len(),
                self.voices@.len() == old(self).voices@.len(),
                forall|j: int|
                    0 <= j < i ==> #[trigger] self.voices@[j] == old(self).voices@[j].spec_reset(),
                forall|j: int|
                    i <= j < self.voices@.len() ==> self.voices@[j] == old(self).voices@[j],
            decreases self.voices@.len() - i,
        {
            self.voices[i].reset();
            i += 1;
        }
        proof {
            lemma_active_count_bounds(self.voices@);
        }
    }

    /// Get number of currently active voices.
    pub fn active_voice_count(&self) -> (r: usize)
        ensures
            r == active_count(self@),
            r <= self@.len(),
    {
        count_active(&self.voices)
    }

    /// Advance the voice at `index` by one sample; see `Fm6OpVoice::tick`. An
    /// index past the pool is ignored.
    pub fn tick_voice(&mut self, index: usize, reached: [bool; 6])
        ensures
            final(self)@ == (if index < old(self)@.len() {
                old(self)@.update(index as int, old(self)@[index as int].spec_tick(reached))
            } else {
                old(self)@
            }),
    {
        if index < self.voices.len() {
            self.voices[index].tick(reached);
        }
    }

    /// Set algorithm for all voices. Notes and envelopes go on as they are.
    pub fn set_algorithm(&mut self, algo: Dx7Algorithm)
        ensures
            final(self)@.len() == old(self)@.len(),
            forall|i: int|
                0 <= i < old(self)@.len() ==> #[trigger] final(self)@[i] == (Fm6OpVoice {
                    algorithm: algo,
                    ..old(self)@[i]
                }),
    {
        let mut i: usize = 0;
        while i < self.voices.len()
            invariant
                i <= self.voices@.len(),
                self.voices@.len() == old(self).voices@.len(),
                forall|j: int|
                    0 <= j < i ==> #[trigger] self.voices@[j] == (Fm6OpVoice {
                        algorithm: algo,
                        ..old(self).voices@[j]
                    }),
                forall|j: int|
                    i <= j < self.voices@.len() ==> self.voices@[j] == old(self).voices@[j],
            decreases self.voices@.len() - i,
        {
            self.voices[i].algorithm = algo;
            i += 1;
        }
    }

    /// Get current algorithm, by its number: that of the first voice, and
    /// 0 for an empty pool.
    pub fn get_algorithm(&self) -> (r: u8)
        ensures
            r == self.spec_algorithm().spec_index(),
    {
        if self.voices.len() == 0 {
            0
        } else {
            self.voices[0].algorithm.index()
        }
    }
}

} // verus!
