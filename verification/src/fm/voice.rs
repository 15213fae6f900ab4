//! The voices of the four-operator and of the six-operator engine: the
//! note a voice plays, whether it is sounding, and the envelope stages of
//! its operators.
//!
//! The host computes the samples. Once a sample it tells a voice, for each
//! operator, whether the level of the operator's envelope has reached the
//! target of its stage, and the voice decides from that whether it goes on
//! sounding: it does until the envelopes of all carriers are idle.

use crate::envelope::{reached_count, EnvelopeStage};
use crate::fm::algorithm::{lemma_fm_carriers, FmAlgorithm};
use crate::fm::dx7::{lemma_dx7_carriers, Dx7Algorithm};
use crate::fm::operator::FmOperator;
use crate::pool::PoolVoice;
use vstd::prelude::*;

verus! {

/// Complete four-operator FM voice.
#[derive(Debug, Clone, Copy)]
pub struct Fm4OpVoice {
    /// The four operators (index 0 is operator 1).
    pub operators: [FmOperator; 4],
    /// Algorithm selection.
    pub algorithm: FmAlgorithm,
    /// Current MIDI note.
    pub note: u8,
    /// Is voice active.
    pub active: bool,
}

impl Fm4OpVoice {
    /// A silent voice with the first algorithm.
    pub open spec fn spec_new() -> Fm4OpVoice {
        Fm4OpVoice {
            operators: [
                FmOperator::spec_new(),
                FmOperator::spec_new(),
                FmOperator::spec_new(),
                FmOperator::spec_new(),
            ],
            algorithm: FmAlgorithm::Algo1Serial,
            note: 0,
            active: false,
        }
    }

    /// The voice after it was given a note: it sounds, and every operator
    /// starts its attack.
    pub open spec fn spec_note_on(self, note: u8) -> Fm4OpVoice {
        Fm4OpVoice {
            operators: [
                self.operators[0].spec_trigger(),
                self.operators[1].spec_trigger(),
                self.operators[2].spec_trigger(),
                self.operators[3].spec_trigger(),
            ],
            algorithm: self.algorithm,
            note,
            active: true,
        }
    }

    /// The voice after its note was released: every operator starts its
    /// release, and the voice goes on sounding.
    pub open spec fn spec_note_off(self) -> Fm4OpVoice {
        Fm4OpVoice {
            operators: [
                self.operators[0].spec_release(),
                self.operators[1].spec_release(),
                self.operators[2].spec_release(),
                self.operators[3].spec_release(),
            ],
            algorithm: self.algorithm,
            note: self.note,
            active: self.active,
        }
    }

    /// The voice is finished: the envelope of every carrier of its
    /// algorithm is idle. The envelopes of the other operators do not
    /// count.
    pub open spec fn spec_finished(self) -> bool {
        forall|k: int|
            0 <= k < self.algorithm.spec_carriers().len() ==> self.operators[(
            #[trigger] self.algorithm.spec_carriers()[k]) as int].envelope.stage
                == EnvelopeStage::Idle
    }

    /// The operators after one sample, each advanced by its own event.
    pub open spec fn spec_tick_operators(self, reached: [bool; 4]) -> [FmOperator; 4] {
        [
            self.operators[0].spec_tick(reached[0]),
            self.operators[1].spec_tick(reached[1]),
            self.operators[2].spec_tick(reached[2]),
            self.operators[3].spec_tick(reached[3]),
        ]
    }

    /// The voice after one sample. A voice that is not sounding is left
    /// alone. A sounding voice advances every operator, and goes on
    /// sounding unless it is then finished.
    pub open spec fn spec_tick(self, reached: [bool; 4]) -> Fm4OpVoice {
        if self.active {
            Fm4OpVoice {
                operators: self.spec_tick_operators(reached),
                algorithm: self.algorithm,
                note: self.note,
                active: !(Fm4OpVoice {
                    operators: self.spec_tick_operators(reached),
                    algorithm: self.algorithm,
                    note: self.note,
                    active: true,
                }).spec_finished(),
            }
        } else {
            self
        }
    }

    /// The voice after a run of samples, one array of events for each.
    pub open spec fn spec_ticks(self, events: Seq<[bool; 4]>) -> Fm4OpVoice
        decreases events.len(),
    {
        if events.len() == 0 {
            self
        } else {
            self.spec_ticks(events.drop_last()).spec_tick(events.last())
        }
    }

    /// The voice after a reset: silent, with its algorithm kept.
    pub open spec fn spec_reset(self) -> Fm4OpVoice {
        Fm4OpVoice {
            operators: [
                FmOperator::spec_new(),
                FmOperator::spec_new(),
                FmOperator::spec_new(),
                FmOperator::spec_new(),
            ],
            algorithm: self.algorithm,
            note: 0,
            active: false,
        }
    }

    pub fn new() -> (r: Self)
        ensures
            r == Fm4OpVoice::spec_new(),
    {
        Fm4OpVoice {
            operators: [
                FmOperator::new(),
                FmOperator::new(),
                FmOperator::new(),
                FmOperator::new(),
            ],
            algorithm: FmAlgorithm::Algo1Serial,
            note: 0,
            active: false,
        }
    }

    /// Start a note.
    pub fn note_on(&mut self, note: u8)
        ensures
            *final(self) == old(self).spec_note_on(note),
    {
        self.note = note;
        self.active = true;
        let mut i: usize = 0;
        while i < 4
            invariant
                i <= 4,
                self.note == note,
                self.active,
                self.algorithm == old(self).algorithm,
                forall|j: int|
                    0 <= j < i ==> self.operators[j] == old(self).operators[j].spec_trigger(),
                forall|j: int| i <= j < 4 ==> self.operators[j] == old(self).operators[j],
            decreases 4 - i,
        {
            self.operators[i].trigger();
            i += 1;
        }
        assert(self.operators =~= old(self).spec_note_on(note).operators);
    }

    /// Release a note.
    pub fn note_off(&mut self)
        ensures
            *final(self) == old(self).spec_note_off(),
    {
        let mut i: usize = 0;
        while i < 4
            invariant
                i <= 4,
                self.note == old(self).note,
                self.active == old(self).active,
                self.algorithm == old(self).algorithm,
                forall|j: int|
                    0 <= j < i ==> self.operators[j] == old(self).operators[j].spec_release(),
                forall|j: int| i <= j < 4 ==> self.operators[j] == old(self).operators[j],
            decreases 4 - i,
        {
            self.operators[i].release();
            i += 1;
        }
        assert(self.operators =~= old(self).spec_note_off().operators);
    }

    /// Check if voice is finished: it is when all carrier operators are
    /// done.
    pub fn is_finished(&self) -> (r: bool)
        ensures
            r == self.spec_finished(),
    {
        let carriers = self.algorithm.carriers();
        proof {
            lemma_fm_carriers(self.algorithm);
        }
        let mut k: usize = 0;
        while k < carriers.len()
            invariant
                k <= carriers@.len(),
                carriers@ == self.algorithm.spec_carriers(),
                forall|j: int| 0 <= j < carriers@.len() ==> carriers@[j] < 4,
                forall|j: int|
                    0 <= j < k ==> self.operators[(#[trigger] carriers@[j]) as int].envelope.stage
                        == EnvelopeStage::Idle,
            decreases carriers@.len() - k,
        {
            if !self.operators[carriers[k]].is_finished() {
                return false;
            }
            k += 1;
        }
        true
    }

    /// Advance by one sample. `reached[i]` says whether the level of the
    /// envelope of operator `i` reached the target of its stage in this
    /// sample. The voice stops sounding exactly when it is finished.
    #[inline]
    pub fn tick(&mut self, reached: [bool; 4])
        ensures
            *final(self) == old(self).spec_tick(reached),
            final(self).active == (old(self).active && !final(self).spec_finished()),
    {
        if !self.active {
            return ;
        }
        let mut i: usize = 0;
        while i < 4
            invariant
                i <= 4,
                self.note == old(self).note,
                self.active,
                self.algorithm == old(self).algorithm,
                forall|j: int|
                    0 <= j < i ==> self.operators[j] == old(self).operators[j].spec_tick(
                        reached[j],
                    ),
                forall|j: int| i <= j < 4 ==> self.operators[j] == old(self).operators[j],
            decreases 4 - i,
        {
            self.operators[i].tick(reached[i]);
            i += 1;
        }
        assert(self.operators =~= old(self).spec_tick_operators(reached));
        if self.is_finished() {
            self.active = false;
        }
    }

    /// Stop at once: no note, no sound, every envelope idle. The algorithm
    /// stays.
    pub fn reset(&mut self)
        ensures
            *final(self) == old(self).spec_reset(),
    {
        let mut i: usize = 0;
        while i < 4
            invariant
                i <= 4,
                self.algorithm == old(self).algorithm,
                forall|j: int| 0 <= j < i ==> self.operators[j] == FmOperator::spec_new(),
            decreases 4 - i,
        {
            self.operators[i].reset();
            i += 1;
        }
        self.active = false;
        self.note = 0;
        assert(self.operators =~= old(self).spec_reset().operators);
    }

    pub fn is_active(&self) -> (r: bool)
        ensures
            r == self.active,
    {
        self.active
    }

    pub fn note(&self) -> (r: u8)
        ensures
            r == self.note,
    {
        self.note
    }
}

impl PoolVoice for Fm4OpVoice {
    open spec fn sounding(&self) -> bool {
        self.active
    }

    open spec fn pitch(&self) -> u8 {
        self.note
    }

    fn is_sounding(&self) -> (r: bool) {
        self.active
    }

    fn sounding_note(&self) -> (r: u8) {
        self.note
    }
}

/// A voice is not finished while the envelope of one of its carriers is
/// not idle.
pub proof fn lemma_fm4_carrier_keeps_voice(voice: Fm4OpVoice, k: int)
    requires
        0 <= k < voice.algorithm.spec_carriers().len(),
        voice.operators[voice.algorithm.spec_carriers()[k] as int].envelope.stage
            != EnvelopeStage::Idle,
    ensures
        !voice.spec_finished(),
{
}

/// Only the carriers decide whether a voice is finished: two voices with
/// the same algorithm whose carriers are in the same stages are finished
/// together, whatever the stages of their other operators.
pub proof fn lemma_fm4_modulators_do_not_count(a: Fm4OpVoice, b: Fm4OpVoice)
    requires
        a.algorithm == b.algorithm,
        forall|k: int|
            0 <= k < a.algorithm.spec_carriers().len() ==> a.operators[(
            #[trigger] a.algorithm.spec_carriers()[k]) as int].envelope.stage
                == b.operators[a.algorithm.spec_carriers()[k] as int].envelope.stage,
    ensures
        a.spec_finished() == b.spec_finished(),
{
}

/// What operator `op` reached, sample by sample.
pub open spec fn fm4_operator_events(events: Seq<[bool; 4]>, op: int) -> Seq<bool> {
    events.map_values(|e: [bool; 4]| e[op])
}

/// While a voice sounds, each operator runs on its own events, and the
/// voice keeps its note and its algorithm.
pub proof fn lemma_fm4_voice_ticks(voice: Fm4OpVoice, events: Seq<[bool; 4]>, op: int)
    requires
        0 <= op < 4,
    ensures
        voice.spec_ticks(events).note == voice.note,
        voice.spec_ticks(events).algorithm == voice.algorithm,
        voice.spec_ticks(events).active ==> voice.active,
        voice.spec_ticks(events).active ==> voice.spec_ticks(events).operators[op].envelope.stage
            == voice.operators[op].envelope.stage.after_ticks(fm4_operator_events(events, op)),
    decreases events.len(),
{
    if events.len() > 0 {
        let init = events.drop_last();
        lemma_fm4_voice_ticks(voice, init, op);
        assert(fm4_operator_events(events, op).drop_last() == fm4_operator_events(init, op));
        assert(fm4_operator_events(events, op).last() == events.last()[op]);
    }
}

/// A held note never ends by itself: after a note was started, the voice
/// sounds it for as long as it is not released, whatever the envelopes
/// reach.
pub proof fn lemma_fm4_held_note_sounds(voice: Fm4OpVoice, note: u8, events: Seq<[bool; 4]>)
    ensures
        voice.spec_note_on(note).spec_ticks(events).active,
        voice.spec_note_on(note).spec_ticks(events).note == note,
    decreases events.len(),
{
    let started = voice.spec_note_on(note);
    if events.len() > 0 {
        let init = events.drop_last();
        lemma_fm4_held_note_sounds(voice, note, init);
        let before = started.spec_ticks(init);
        let after = before.spec_tick(events.last());
        lemma_fm4_voice_ticks(started, init, 0);
        lemma_fm4_voice_ticks(started, events, 0);
        lemma_fm_carriers(started.algorithm);
        crate::envelope::lemma_triggered_stages(
            voice.operators[0].envelope.stage,
            fm4_operator_events(init, 0),
        );
        let ticked = Fm4OpVoice {
            operators: before.spec_tick_operators(events.last()),
            algorithm: before.algorithm,
            note: before.note,
            active: true,
        };
        assert(ticked.operators[0].envelope.stage != EnvelopeStage::Idle);
        assert(ticked.algorithm.spec_carriers()[0] == 0);
        lemma_fm4_carrier_keeps_voice(ticked, 0);
    }
}

/// The course of a voice whose operators are all in their release: while
/// it sounds, an operator is idle exactly if its envelope has reached
/// silence, and the voice has stopped sounding exactly if every carrier
/// has.
proof fn lemma_fm4_releasing(voice: Fm4OpVoice, events: Seq<[bool; 4]>)
    requires
        voice.active,
        forall|op: int|
            0 <= op < 4 ==> (#[trigger] voice.operators[op]).envelope.stage
                == EnvelopeStage::Release,
    ensures
        voice.spec_ticks(events).algorithm == voice.algorithm,
        voice.spec_ticks(events).active ==> forall|op: int|
            0 <= op < 4 ==> (#[trigger] voice.spec_ticks(events).operators[op]).envelope.stage
                == (if reached_count(fm4_operator_events(events, op)) == 0 {
                EnvelopeStage::Release
            } else {
                EnvelopeStage::Idle
            }),
        !voice.spec_ticks(events).active <==> forall|k: int|
            0 <= k < voice.algorithm.spec_carriers().len() ==> reached_count(
                fm4_operator_events(
                    events,
                    (#[trigger] voice.algorithm.spec_carriers()[k]) as int,
                ),
            ) > 0,
    decreases events.len(),
{
    let carriers = voice.algorithm.spec_carriers();
    lemma_fm_carriers(voice.algorithm);
    if events.len() == 0 {
        assert(reached_count(fm4_operator_events(events, carriers[0] as int)) == 0);
    } else {
        let init = events.drop_last();
        let before = voice.spec_ticks(init);
        let after = voice.spec_ticks(events);
        lemma_fm4_releasing(voice, init);
        assert forall|op: int| 0 <= op < 4 implies reached_count(
            #[trigger] fm4_operator_events(events, op),
        ) == reached_count(fm4_operator_events(init, op)) + (if events.last()[op] {
            1nat
        } else {
            0nat
        }) by {
            assert(fm4_operator_events(events, op).drop_last() == fm4_operator_events(init, op));
            assert(fm4_operator_events(events, op).last() == events.last()[op]);
        }
        if before.active {
            let ticked = Fm4OpVoice {
                operators: before.spec_tick_operators(events.last()),
                algorithm: before.algorithm,
                note: before.note,
                active: true,
            };
            assert forall|op: int| 0 <= op < 4 implies (
            #[trigger] ticked.operators[op]).envelope.stage == (if reached_count(
                fm4_operator_events(events, op),
            ) == 0 {
                EnvelopeStage::Release
            } else {
                EnvelopeStage::Idle
            }) by {
                assert(before.operators[op].envelope.stage == (if reached_count(
                    fm4_operator_events(init, op),
                ) == 0 {
                    EnvelopeStage::Release
                } else {
                    EnvelopeStage::Idle
                }));
                assert(reached_count(fm4_operator_events(events, op)) == reached_count(
                    fm4_operator_events(init, op),
                ) + (if events.last()[op] {
                    1nat
                } else {
                    0nat
                }));
            }
            assert(after.active == !ticked.spec_finished());
            if ticked.spec_finished() {
                assert forall|k: int| 0 <= k < carriers.len() implies reached_count(
                    fm4_operator_events(events, (#[trigger] carriers[k]) as int),
                ) > 0 by {
                    assert(ticked.operators[carriers[k] as int].envelope.stage
                        == EnvelopeStage::Idle);
                }
            } else {
                let k = choose|k: int|
                    0 <= k < carriers.len() && ticked.operators[(
                    #[trigger] carriers[k]) as int].envelope.stage != EnvelopeStage::Idle;
                assert(reached_count(fm4_operator_events(events, carriers[k] as int)) == 0);
            }
            assert(after.operators =~= ticked.operators);
        } else {
            assert(after == before);
            assert forall|k: int| 0 <= k < carriers.len() implies reached_count(
                fm4_operator_events(events, (#[trigger] carriers[k]) as int),
            ) > 0 by {
                assert(reached_count(fm4_operator_events(init, carriers[k] as int)) > 0);
            }
        }
    }
}

/// A released note ends with its carriers: after the release the voice
/// sounds until the envelope of every carrier has reached silence, and
/// stops on the sample in which the last of them does. What the envelopes
/// of the other operators reach does not matter.
pub proof fn lemma_fm4_released_note_ends_with_carriers(
    voice: Fm4OpVoice,
    note: u8,
    held: Seq<[bool; 4]>,
    released: Seq<[bool; 4]>,
)
    ensures
        !voice.spec_note_on(note).spec_ticks(held).spec_note_off().spec_ticks(released).active
            <==> forall|k: int|
            0 <= k < voice.algorithm.spec_carriers().len() ==> reached_count(
                fm4_operator_events(
                    released,
                    (#[trigger] voice.algorithm.spec_carriers()[k]) as int,
                ),
            ) > 0,
{
    let started = voice.spec_note_on(note);
    let playing = started.spec_ticks(held);
    let ending = playing.spec_note_off();
    lemma_fm4_held_note_sounds(voice, note, held);
    assert forall|op: int| 0 <= op < 4 implies (#[trigger] ending.operators[op]).envelope.stage
        == EnvelopeStage::Release by {
        lemma_fm4_voice_ticks(started, held, op);
        crate::envelope::lemma_triggered_stages(
            voice.operators[op].envelope.stage,
            fm4_operator_events(held, op),
        );
    }
    lemma_fm4_voice_ticks(started, held, 0);
    lemma_fm4_releasing(ending, released);
}

/// Complete six-operator FM voice.
#[derive(Debug, Clone, Copy)]
pub struct Fm6OpVoice {
    /// The six operators (index 0 is operator 1).
    pub operators: [FmOperator; 6],
    /// Algorithm selection.
    pub algorithm: Dx7Algorithm,
    /// Current MIDI note.
    pub note: u8,
    /// Is voice active.
    pub active: bool,
}

impl Fm6OpVoice {
    /// A silent voice with the first algorithm.
    pub open spec fn spec_new() -> Fm6OpVoice {
        Fm6OpVoice {
            operators: [
                FmOperator::spec_new(),
                FmOperator::spec_new(),
                FmOperator::spec_new(),
                FmOperator::spec_new(),
                FmOperator::spec_new(),
                FmOperator::spec_new(),
            ],
            algorithm: Dx7Algorithm::Algo1,
            note: 0,
            active: false,
        }
    }

    /// The voice after it was given a note: it sounds, and every operator
    /// starts its attack.
    pub open spec fn spec_note_on(self, note: u8) -> Fm6OpVoice {
        Fm6OpVoice {
            operators: [
                self.operators[0].spec_trigger(),
                self.operators[1].spec_trigger(),
                self.operators[2].spec_trigger(),
                self.operators[3].spec_trigger(),
                self.operators[4].spec_trigger(),
                self.operators[5].spec_trigger(),
            ],
            algorithm: self.algorithm,
            note,
            active: true,
        }
    }

    /// The voice after its note was released: every operator starts its
    /// release, and the voice goes on sounding.
    pub open spec fn spec_note_off(self) -> Fm6OpVoice {
        Fm6OpVoice {
            operators: [
                self.operators[0].spec_release(),
                self.operators[1].spec_release(),
                self.operators[2].spec_release(),
                self.operators[3].spec_release(),
                self.operators[4].spec_release(),
                self.operators[5].spec_release(),
            ],
            algorithm: self.algorithm,
            note: self.note,
            active: self.active,
        }
    }

    /// The voice is finished: the envelope of every carrier of its
    /// algorithm is idle. The envelopes of the other operators do not
    /// count.
    pub open spec fn spec_finished(self) -> bool {
        forall|k: int|
            0 <= k < self.algorithm.spec_carriers().len() ==> self.operators[(
            #[trigger] self.algorithm.spec_carriers()[k]) as int].envelope.stage
                == EnvelopeStage::Idle
    }

    /// The operators after one sample, each advanced by its own event.
    pub open spec fn spec_tick_operators(self, reached: [bool; 6]) -> [FmOperator; 6] {
        [
            self.operators[0].spec_tick(reached[0]),
            self.operators[1].spec_tick(reached[1]),
            self.operators[2].spec_tick(reached[2]),
            self.operators[3].spec_tick(reached[3]),
            self.operators[4].spec_tick(reached[4]),
            self.operators[5].spec_tick(reached[5]),
        ]
    }

    /// The voice after one sample. A voice that is not sounding is left
    /// alone. A sounding voice advances every operator, and goes on
    /// sounding unless it is then finished.
    pub open spec fn spec_tick(self, reached: [bool; 6]) -> Fm6OpVoice {
        if self.active {
            Fm6OpVoice {
                operators: self.spec_tick_operators(reached),
                algorithm: self.algorithm,
                note: self.note,
                active: !(Fm6OpVoice {
                    operators: self.spec_tick_operators(reached),
                    algorithm: self.algorithm,
                    note: self.note,
                    active: true,
                }).spec_finished(),
            }
        } else {
            self
        }
    }

    /// The voice after a run of samples, one array of events for each.
    pub open spec fn spec_ticks(self, events: Seq<[bool; 6]>) -> Fm6OpVoice
        decreases events.len(),
    {
        if events.len() == 0 {
            self
        } else {
            self.spec_ticks(events.drop_last()).spec_tick(events.last())
        }
    }

    /// The voice after a reset: silent, with its algorithm kept.
    pub open spec fn spec_reset(self) -> Fm6OpVoice {
        Fm6OpVoice {
            operators: [
                FmOperator::spec_new(),
                FmOperator::spec_new(),
                FmOperator::spec_new(),
                FmOperator::spec_new(),
                FmOperator::spec_new(),
                FmOperator::spec_new(),
            ],
            algorithm: self.algorithm,
            note: 0,
            active: false,
        }
    }

    pub fn new() -> (r: Self)
        ensures
            r == Fm6OpVoice::spec_new(),
    {
        Fm6OpVoice {
            operators: [
                FmOperator::new(),
                FmOperator::new(),
                FmOperator::new(),
                FmOperator::new(),
                FmOperator::new(),
                FmOperator::new(),
            ],
            algorithm: Dx7Algorithm::Algo1,
            note: 0,
            active: false,
        }
    }

    /// Start a note.
    pub fn note_on(&mut self, note: u8)
        ensures
            *final(self) == old(self).spec_note_on(note),
    {
        self.note = note;
        self.active = true;
        let mut i: usize = 0;
        while i < 6
            invariant
                i <= 6,
                self.note == note,
                self.active,
                self.algorithm == old(self).algorithm,
                forall|j: int|
                    0 <= j < i ==> self.operators[j] == old(self).operators[j].spec_trigger(),
                forall|j: int| i <= j < 6 ==> self.operators[j] == old(self).operators[j],
            decreases 6 - i,
        {
            self.operators[i].trigger();
            i += 1;
        }
        assert(self.operators =~= old(self).spec_note_on(note).operators);
    }

    /// Release a note.
    pub fn note_off(&mut self)
        ensures
            *final(self) == old(self).spec_note_off(),
    {
        let mut i: usize = 0;
        while i < 6
            invariant
                i <= 6,
                self.note == old(self).note,
                self.active == old(self).active,
                self.algorithm == old(self).algorithm,
                forall|j: int|
                    0 <= j < i ==> self.operators[j] == old(self).operators[j].spec_release(),
                forall|j: int| i <= j < 6 ==> self.operators[j] == old(self).operators[j],
            decreases 6 - i,
        {
            self.operators[i].release();
            i += 1;
        }
        assert(self.operators =~= old(self).spec_note_off().operators);
    }

    /// Check if voice is finished: it is when all carrier operators are
    /// done.
    pub fn is_finished(&self) -> (r: bool)
        ensures
            r == self.spec_finished(),
    {
        let carriers = self.algorithm.carriers();
        proof {
            lemma_dx7_carriers(self.algorithm);
        }
        let mut k: usize = 0;
        while k < carriers.len()
            invariant
                k <= carriers@.len(),
                carriers@ == self.algorithm.spec_carriers(),
                forall|j: int| 0 <= j < carriers@.len() ==> carriers@[j] < 6,
                forall|j: int|
                    0 <= j < k ==> self.operators[(#[trigger] carriers@[j]) as int].envelope.stage
                        == EnvelopeStage::Idle,
            decreases carriers@.len() - k,
        {
            if !self.operators[carriers[k]].is_finished() {
                return false;
            }
            k += 1;
        }
        true
    }

    /// Advance by one sample. `reached[i]` says whether the level of the
    /// envelope of operator `i` reached the target of its stage in this
    /// sample. The voice stops sounding exactly when it is finished.
    #[inline]
    pub fn tick(&mut self, reached: [bool; 6])
        ensures
            *final(self) == old(self).spec_tick(reached),
            final(self).active == (old(self).active && !final(self).spec_finished()),
    {
        if !self.active {
            return ;
        }
        let mut i: usize = 0;
        while i < 6
            invariant
                i <= 6,
                self.note == old(self).note,
                self.active,
                self.algorithm == old(self).algorithm,
                forall|j: int|
                    0 <= j < i ==> self.operators[j] == old(self).operators[j].spec_tick(
                        reached[j],
                    ),
                forall|j: int| i <= j < 6 ==> self.operators[j] == old(self).operators[j],
            decreases 6 - i,
        {
            self.operators[i].tick(reached[i]);
            i += 1;
        }
        assert(self.operators =~= old(self).spec_tick_operators(reached));
        if self.is_finished() {
            self.active = false;
        }
    }

    /// Stop at once: no note, no sound, every envelope idle. The algorithm
    /// stays.
    pub fn reset(&mut self)
        ensures
            *final(self) == old(self).spec_reset(),
    {
        let mut i: usize = 0;
        while i < 6
            invariant
                i <= 6,
                self.algorithm == old(self).algorithm,
                forall|j: int| 0 <= j < i ==> self.operators[j] == FmOperator::spec_new(),
            decreases 6 - i,
        {
            self.operators[i].reset();
            i += 1;
        }
        self.active = false;
        self.note = 0;
        assert(self.operators =~= old(self).spec_reset().operators);
    }

    pub fn is_active(&self) -> (r: bool)
        ensures
            r == self.active,
    {
        self.active
    }

    pub fn note(&self) -> (r: u8)
        ensures
            r == self.note,
    {
        self.note
    }
}

impl PoolVoice for Fm6OpVoice {
    open spec fn sounding(&self) -> bool {
        self.active
    }

    open spec fn pitch(&self) -> u8 {
        self.note
    }

    fn is_sounding(&self) -> (r: bool) {
        self.active
    }

    fn sounding_note(&self) -> (r: u8) {
        self.note
    }
}

/// A voice is not finished while the envelope of one of its carriers is
/// not idle.
pub proof fn lemma_fm6_carrier_keeps_voice(voice: Fm6OpVoice, k: int)
    requires
        0 <= k < voice.algorithm.spec_carriers().len(),
        voice.operators[voice.algorithm.spec_carriers()[k] as int].envelope.stage
            != EnvelopeStage::Idle,
    ensures
        !voice.spec_finished(),
{
}

/// Only the carriers decide whether a voice is finished: two voices with
/// the same algorithm whose carriers are in the same stages are finished
/// together, whatever the stages of their other operators.
pub proof fn lemma_fm6_modulators_do_not_count(a: Fm6OpVoice, b: Fm6OpVoice)
    requires
        a.algorithm == b.algorithm,
        forall|k: int|
            0 <= k < a.algorithm.spec_carriers().len() ==> a.operators[(
            #[trigger] a.algorithm.spec_carriers()[k]) as int].envelope.stage
                == b.operators[a.algorithm.spec_carriers()[k] as int].envelope.stage,
    ensures
        a.spec_finished() == b.spec_finished(),
{
}

/// What operator `op` reached, sample by sample.
pub open spec fn fm6_operator_events(events: Seq<[bool; 6]>, op: int) -> Seq<bool> {
    events.map_values(|e: [bool; 6]| e[op])
}

/// While a voice sounds, each operator runs on its own events, and the
/// voice keeps its note and its algorithm.
pub proof fn lemma_fm6_voice_ticks(voice: Fm6OpVoice, events: Seq<[bool; 6]>, op: int)
    requires
        0 <= op < 6,
    ensures
        voice.spec_ticks(events).note == voice.note,
        voice.spec_ticks(events).algorithm == voice.algorithm,
        voice.spec_ticks(events).active ==> voice.active,
        voice.spec_ticks(events).active ==> voice.spec_ticks(events).operators[op].envelope.stage
            == voice.operators[op].envelope.stage.after_ticks(fm6_operator_events(events, op)),
    decreases events.len(),
{
    if events.len() > 0 {
        let init = events.drop_last();
        lemma_fm6_voice_ticks(voice, init, op);
        assert(fm6_operator_events(events, op).drop_last() == fm6_operator_events(init, op));
        assert(fm6_operator_events(events, op).last() == events.last()[op]);
    }
}

/// A held note never ends by itself: after a note was started, the voice
/// sounds it for as long as it is not released, whatever the envelopes
/// reach.
pub proof fn lemma_fm6_held_note_sounds(voice: Fm6OpVoice, note: u8, events: Seq<[bool; 6]>)
    ensures
        voice.spec_note_on(note).spec_ticks(events).active,
        voice.spec_note_on(note).spec_ticks(events).note == note,
    decreases events.len(),
{
    let started = voice.spec_note_on(note);
    if events.len() > 0 {
        let init = events.drop_last();
        lemma_fm6_held_note_sounds(voice, note, init);
        let before = started.spec_ticks(init);
        let after = before.spec_tick(events.last());
        lemma_fm6_voice_ticks(started, init, 0);
        lemma_fm6_voice_ticks(started, events, 0);
        lemma_dx7_carriers(started.algorithm);
        crate::envelope::lemma_triggered_stages(
            voice.operators[0].envelope.stage,
            fm6_operator_events(init, 0),
        );
        let ticked = Fm6OpVoice {
            operators: before.spec_tick_operators(events.last()),
            algorithm: before.algorithm,
            note: before.note,
            active: true,
        };
        assert(ticked.operators[0].envelope.stage != EnvelopeStage::Idle);
        assert(ticked.algorithm.spec_carriers()[0] == 0);
        lemma_fm6_carrier_keeps_voice(ticked, 0);
    }
}

/// The course of a voice whose operators are all in their release: while
/// it sounds, an operator is idle exactly if its envelope has reached
/// silence, and the voice has stopped sounding exactly if every carrier
/// has.
proof fn lemma_fm6_releasing(voice: Fm6OpVoice, events: Seq<[bool; 6]>)
    requires
        voice.active,
        forall|op: int|
            0 <= op < 6 ==> (#[trigger] voice.operators[op]).envelope.stage
                == EnvelopeStage::Release,
    ensures
        voice.spec_ticks(events).algorithm == voice.algorithm,
        voice.spec_ticks(events).active ==> forall|op: int|
            0 <= op < 6 ==> (#[trigger] voice.spec_ticks(events).operators[op]).envelope.stage
                == (if reached_count(fm6_operator_events(events, op)) == 0 {
                EnvelopeStage::Release
            } else {
                EnvelopeStage::Idle
            }),
        !voice.spec_ticks(events).active <==> forall|k: int|
            0 <= k < voice.algorithm.spec_carriers().len() ==> reached_count(
                fm6_operator_events(
                    events,
                    (#[trigger] voice.algorithm.spec_carriers()[k]) as int,
                ),
            ) > 0,
    decreases events.len(),
{
    let carriers = voice.algorithm.spec_carriers();
    lemma_dx7_carriers(voice.algorithm);
    if events.len() == 0 {
        assert(reached_count(fm6_operator_events(events, carriers[0] as int)) == 0);
    } else {
        let init = events.drop_last();
        let before = voice.spec_ticks(init);
        let after = voice.spec_ticks(events);
        lemma_fm6_releasing(voice, init);
        assert forall|op: int| 0 <= op < 6 implies reached_count(
            #[trigger] fm6_operator_events(events, op),
        ) == reached_count(fm6_operator_events(init, op)) + (if events.last()[op] {
            1nat
        } else {
            0nat
        }) by {
            assert(fm6_operator_events(events, op).drop_last() == fm6_operator_events(init, op));
            assert(fm6_operator_events(events, op).last() == events.last()[op]);
        }
        if before.active {
            let ticked = Fm6OpVoice {
                operators: before.spec_tick_operators(events.last()),
                algorithm: before.algorithm,
                note: before.note,
                active: true,
            };
            assert forall|op: int| 0 <= op < 6 implies (
            #[trigger] ticked.operators[op]).envelope.stage == (if reached_count(
                fm6_operator_events(events, op),
            ) == 0 {
                EnvelopeStage::Release
            } else {
                EnvelopeStage::Idle
            }) by {
                assert(before.operators[op].envelope.stage == (if reached_count(
                    fm6_operator_events(init, op),
                ) == 0 {
                    EnvelopeStage::Release
                } else {
                    EnvelopeStage::Idle
                }));
                assert(reached_count(fm6_operator_events(events, op)) == reached_count(
                    fm6_operator_events(init, op),
                ) + (if events.last()[op] {
                    1nat
                } else {
                    0nat
                }));
            }
            assert(after.active == !ticked.spec_finished());
            if ticked.spec_finished() {
                assert forall|k: int| 0 <= k < carriers.len() implies reached_count(
                    fm6_operator_events(events, (#[trigger] carriers[k]) as int),
                ) > 0 by {
                    assert(ticked.operators[carriers[k] as int].envelope.stage
                        == EnvelopeStage::Idle);
                }
            } else {
                let k = choose|k: int|
                    0 <= k < carriers.len() && ticked.operators[(
                    #[trigger] carriers[k]) as int].envelope.stage != EnvelopeStage::Idle;
                assert(reached_count(fm6_operator_events(events, carriers[k] as int)) == 0);
            }
            assert(after.operators =~= ticked.operators);
        } else {
            assert(after == before);
            assert forall|k: int| 0 <= k < carriers.len() implies reached_count(
                fm6_operator_events(events, (#[trigger] carriers[k]) as int),
            ) > 0 by {
                assert(reached_count(fm6_operator_events(init, carriers[k] as int)) > 0);
            }
        }
    }
}

/// A released note ends with its carriers: after the release the voice
/// sounds until the envelope of every carrier has reached silence, and
/// stops on the sample in which the last of them does. What the envelopes
/// of the other operators reach does not matter.
pub proof fn lemma_fm6_released_note_ends_with_carriers(
    voice: Fm6OpVoice,
    note: u8,
    held: Seq<[bool; 6]>,
    released: Seq<[bool; 6]>,
)
    ensures
        !voice.spec_note_on(note).spec_ticks(held).spec_note_off().spec_ticks(released).active
            <==> forall|k: int|
            0 <= k < voice.algorithm.spec_carriers().len() ==> reached_count(
                fm6_operator_events(
                    released,
                    (#[trigger] voice.algorithm.spec_carriers()[k]) as int,
                ),
            ) > 0,
{
    let started = voice.spec_note_on(note);
    let playing = started.spec_ticks(held);
    let ending = playing.spec_note_off();
    lemma_fm6_held_note_sounds(voice, note, held);
    assert forall|op: int| 0 <= op < 6 implies (#[trigger] ending.operators[op]).envelope.stage
        == EnvelopeStage::Release by {
        lemma_fm6_voice_ticks(started, held, op);
        crate::envelope::lemma_triggered_stages(
            voice.operators[op].envelope.stage,
            fm6_operator_events(held, op),
        );
    }
    lemma_fm6_voice_ticks(started, held, 0);
    lemma_fm6_releasing(ending, released);
}

} // verus!
