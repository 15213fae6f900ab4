//! The allocation policy of a fixed pool of voices.
//!
//! A note that is already sounding is played again on the voice that
//! sounds it. Any other note takes the first voice that is free. When no
//! voice is free, the first voice of the pool is taken from the note it is
//! playing. The pool never grows.

use vstd::prelude::*;

verus! {

/// What the allocation policy reads of a voice.
pub trait PoolVoice: Sized {
    /// Whether the voice is sounding.
    spec fn sounding(&self) -> bool;

    /// The note that the voice plays, or played last.
    spec fn pitch(&self) -> u8;

    /// Whether the voice is sounding.
    fn is_sounding(&self) -> (r: bool)
        ensures
            r == self.sounding(),
    ;

    /// The note that the voice plays, or played last.
    fn sounding_note(&self) -> (r: u8)
        ensures
            r == self.pitch(),
    ;
}

/// Whether a voice is sounding the note.
pub open spec fn plays<V: PoolVoice>(voice: V, note: u8) -> bool {
    voice.sounding() && voice.pitch() == note
}

/// None of the first `n` voices is sounding the note.
pub open spec fn none_playing_before<V: PoolVoice>(voices: Seq<V>, note: u8, n: int) -> bool {
    forall|j: int| 0 <= j < n && j < voices.len() ==> !plays(#[trigger] voices[j], note)
}

/// No voice is sounding the note.
pub open spec fn none_playing<V: PoolVoice>(voices: Seq<V>, note: u8) -> bool {
    none_playing_before(voices, note, voices.len() as int)
}

/// Voice `i` is the first that is sounding the note.
pub open spec fn first_playing<V: PoolVoice>(voices: Seq<V>, note: u8, i: int) -> bool {
    &&& 0 <= i < voices.len()
    &&& plays(voices[i], note)
    &&& none_playing_before(voices, note, i)
}

/// Each of the first `n` voices is sounding.
pub open spec fn none_free_before<V: PoolVoice>(voices: Seq<V>, n: int) -> bool {
    forall|j: int| 0 <= j < n && j < voices.len() ==> (#[trigger] voices[j]).sounding()
}

/// Every voice is sounding.
pub open spec fn none_free<V: PoolVoice>(voices: Seq<V>) -> bool {
    none_free_before(voices, voices.len() as int)
}

/// No voice is sounding.
pub open spec fn all_free<V: PoolVoice>(voices: Seq<V>) -> bool {
    forall|j: int| 0 <= j < voices.len() ==> !(#[trigger] voices[j]).sounding()
}

/// Voice `i` is the first that is free: it is free, and every voice before
/// it is sounding, the one next to it among them.
pub open spec fn first_free<V: PoolVoice>(voices: Seq<V>, i: int) -> bool {
    &&& 0 <= i < voices.len()
    &&& !voices[i].sounding()
    &&& none_free_before(voices, i)
    &&& (i == 0 || voices[i - 1].sounding())
}

/// Voice `i` is the one that a new note is given: the first free voice,
/// or, in a pool without a free voice, where the last voice is sounding
/// like every other, the first voice.
pub open spec fn allocates<V: PoolVoice>(voices: Seq<V>, i: int) -> bool {
    ||| first_free(voices, i)
    ||| (none_free(voices) && voices.len() > 0 && voices.last().sounding() && i == 0)
}

/// Voice `i` is the one on which the note is played: the first voice that
/// is sounding it already, else the voice that a new note is given.
pub open spec fn takes_note<V: PoolVoice>(voices: Seq<V>, note: u8, i: int) -> bool {
    ||| first_playing(voices, note, i)
    ||| (none_playing(voices, note) && allocates(voices, i))
}

/// The number of voices that are sounding.
pub open spec fn active_count<V: PoolVoice>(voices: Seq<V>) -> nat
    decreases voices.len(),
{
    if voices.len() == 0 {
        0
    } else {
        active_count(voices.drop_last()) + if voices.last().sounding() {
            1nat
        } else {
            0nat
        }
    }
}

/// The voices that are sounding the note, in ascending order.
pub open spec fn playing_voices<V: PoolVoice>(voices: Seq<V>, note: u8) -> Seq<usize>
    decreases voices.len(),
{
    if voices.len() == 0 {
        Seq::empty()
    } else if plays(voices.last(), note) {
        playing_voices(voices.drop_last(), note).push((voices.len() - 1) as usize)
    } else {
        playing_voices(voices.drop_last(), note)
    }
}

/// The first voice that is sounding the note.
pub fn find_playing<V: PoolVoice>(voices: &Vec<V>, note: u8) -> (r: Option<usize>)
    ensures
        match r {
            Some(i) => first_playing(voices@, note, i as int),
            None => none_playing(voices@, note),
        },
{
    let mut i: usize = 0;
    while i < voices.len()
        invariant
            i <= voices.len(),
            none_playing_before(voices@, note, i as int),
        decreases voices.len() - i,
    {
        if voices[i].is_sounding() && voices[i].sounding_note() == note {
            return Some(i);
        }
        i += 1;
    }
    None
}

/// The first voice that is free.
pub fn find_free<V: PoolVoice>(voices: &Vec<V>) -> (r: Option<usize>)
    ensures
        match r {
            Some(i) => first_free(voices@, i as int),
            None => none_free(voices@),
        },
{
    let mut i: usize = 0;
    while i < voices.len()
        invariant
            i <= voices.len(),
            none_free_before(voices@, i as int),
        decreases voices.len() - i,
    {
        if !voices[i].is_sounding() {
            return Some(i);
        }
        i += 1;
    }
    None
}

/// The voice that a new note is given: the first free voice, else the
/// first voice. An empty pool has none to give.
pub fn find_voice<V: PoolVoice>(voices: &Vec<V>) -> (r: Option<usize>)
    ensures
        match r {
            Some(i) => allocates(voices@, i as int),
            None => voices@.len() == 0,
        },
{
    match find_free(voices) {
        Some(i) => Some(i),
        None => if voices.len() > 0 {
            Some(0)
        } else {
            None
        },
    }
}

/// The voice on which a note is played: the first voice that is sounding
/// it already, else the voice that a new note is given. An empty pool has
/// none.
pub fn find_voice_for<V: PoolVoice>(voices: &Vec<V>, note: u8) -> (r: Option<usize>)
    ensures
        match r {
            Some(i) => takes_note(voices@, note, i as int),
            None => voices@.len() == 0,
        },
{
    match find_playing(voices, note) {
        Some(i) => Some(i),
        None => find_voice(voices),
    }
}

/// The number of voices that are sounding.
pub fn count_active<V: PoolVoice>(voices: &Vec<V>) -> (r: usize)
    ensures
        r == active_count(voices@),
        r <= voices@.len(),
{
    let mut n: usize = 0;
    let mut i: usize = 0;
    while i < voices.len()
        invariant
            i <= voices.len(),
            n == active_count(voices@.take(i as int)),
            n <= i,
        decreases voices.len() - i,
    {
        assert(voices@.take(i + 1).drop_last() == voices@.take(i as int));
        if voices[i].is_sounding() {
            n += 1;
        }
        i += 1;
    }
    assert(voices@.take(i as int) == voices@);
    n
}

/// A pool holds no more sounding voices than it has voices; it holds as
/// many exactly when none is free, and none exactly when all are free.
pub proof fn lemma_active_count_bounds<V: PoolVoice>(voices: Seq<V>)
    ensures
        active_count(voices) <= voices.len(),
        active_count(voices) == voices.len() <==> none_free(voices),
        active_count(voices) == 0 <==> all_free(voices),
    decreases voices.len(),
{
    if voices.len() > 0 {
        let init = voices.drop_last();
        lemma_active_count_bounds(init);
        assert forall|j: int| 0 <= j < init.len() implies init[j] == voices[j] by {}
        if none_free(voices) {
            assert(voices.last().sounding());
            assert forall|j: int| 0 <= j < init.len() implies (#[trigger] init[j]).sounding() by {
                assert(voices[j].sounding());
            }
        }
        if all_free(voices) {
            assert(!voices.last().sounding());
            assert forall|j: int| 0 <= j < init.len() implies !(#[trigger] init[j]).sounding() by {
                assert(!voices[j].sounding());
            }
        }
        if active_count(voices) == voices.len() {
            assert(none_free(init));
            assert forall|j: int| 0 <= j < voices.len() implies (
            #[trigger] voices[j]).sounding() by {
                if j < init.len() {
                    assert(init[j].sounding());
                }
            }
        }
        if active_count(voices) == 0 {
            assert(all_free(init));
            assert forall|j: int| 0 <= j < voices.len() implies !(
            #[trigger] voices[j]).sounding() by {
                if j < init.len() {
                    assert(!init[j].sounding());
                }
            }
        }
    }
}

/// Replacing one voice changes the number of sounding voices by what the
/// two voices differ in.
pub proof fn lemma_active_count_update<V: PoolVoice>(voices: Seq<V>, i: int, voice: V)
    requires
        0 <= i < voices.len(),
    ensures
        active_count(voices.update(i, voice)) + (if voices[i].sounding() {
            1nat
        } else {
            0nat
        }) == active_count(voices) + (if voice.sounding() {
            1nat
        } else {
            0nat
        }),
    decreases voices.len(),
{
    let after = voices.update(i, voice);
    if i == voices.len() - 1 {
        assert(after.drop_last() == voices.drop_last());
    } else {
        assert(after.drop_last() == voices.drop_last().update(i, voice));
        lemma_active_count_update(voices.drop_last(), i, voice);
    }
}

/// The policy names exactly one voice of a pool that has any, and none of
/// an empty pool.
pub proof fn lemma_takes_note_unique<V: PoolVoice>(voices: Seq<V>, note: u8, i: int, j: int)
    requires
        takes_note(voices, note, i),
        takes_note(voices, note, j),
    ensures
        i == j,
        0 <= i < voices.len(),
{
}

/// A note that is already sounding is played again on the voice that
/// sounds it: no second voice is taken for it.
pub proof fn lemma_retrigger_reuses_voice<V: PoolVoice>(voices: Seq<V>, note: u8, i: int)
    requires
        takes_note(voices, note, i),
        !none_playing(voices, note),
    ensures
        plays(voices[i], note),
{
}

/// While a voice is free, a note that is not sounding yet takes a free
/// voice: no sounding voice is stolen.
pub proof fn lemma_free_voice_before_steal<V: PoolVoice>(voices: Seq<V>, note: u8, i: int)
    requires
        takes_note(voices, note, i),
        none_playing(voices, note),
        !none_free(voices),
    ensures
        !voices[i].sounding(),
        none_free_before(voices, i),
{
}

/// In a pool without a free voice, a note that is not sounding yet steals
/// the first voice.
pub proof fn lemma_full_pool_steals_first<V: PoolVoice>(voices: Seq<V>, note: u8, i: int)
    requires
        takes_note(voices, note, i),
        none_playing(voices, note),
        none_free(voices),
    ensures
        i == 0,
        voices[i].sounding(),
{
    if first_free(voices, i) {
        assert(voices[i].sounding());
    }
}

/// What playing a note does to the number of sounding voices, whatever else
/// it does to the voice that takes it: the number grows by one where the
/// note takes a free voice, and stays where the note is played again or
/// steals a voice. It never passes the size of the pool.
pub proof fn lemma_note_on_count<V: PoolVoice>(voices: Seq<V>, note: u8, i: int, voice: V)
    requires
        takes_note(voices, note, i),
        voice.sounding(),
    ensures
        active_count(voices.update(i, voice)) == active_count(voices) + (if none_playing(
            voices,
            note,
        ) && !none_free(voices) {
            1nat
        } else {
            0nat
        }),
        active_count(voices.update(i, voice)) <= voices.len(),
{
    lemma_takes_note_unique(voices, note, i, i);
    lemma_active_count_update(voices, i, voice);
    lemma_active_count_bounds(voices.update(i, voice));
    if none_playing(voices, note) {
        if none_free(voices) {
            lemma_full_pool_steals_first(voices, note, i);
        } else {
            lemma_free_voice_before_steal(voices, note, i);
        }
    }
}

/// Playing a note turns the pool `before` into the pool `after`: voice `i`
/// takes the note and sounds it afterwards, and no other voice changes.
pub open spec fn note_on_step<V: PoolVoice>(
    before: Seq<V>,
    after: Seq<V>,
    note: u8,
    i: int,
) -> bool {
    &&& takes_note(before, note, i)
    &&& after.len() == before.len()
    &&& plays(after[i], note)
    &&& forall|j: int| 0 <= j < before.len() && j != i ==> #[trigger] after[j] == before[j]
}

/// The first `m` voices of the pool sound the first `m` notes, one each in
/// their order, and the other voices are free.
pub open spec fn holds_notes<V: PoolVoice>(voices: Seq<V>, notes: Seq<u8>, m: int) -> bool {
    &&& forall|k: int| 0 <= k < m && k < voices.len() ==> plays(#[trigger] voices[k], notes[k])
    &&& forall|k: int| m <= k < voices.len() ==> !(#[trigger] voices[k]).sounding()
}

/// A pool whose first `m` voices sound and whose other voices are free has
/// `m` sounding voices.
proof fn lemma_count_of_prefix<V: PoolVoice>(voices: Seq<V>, m: int)
    requires
        0 <= m <= voices.len(),
        forall|k: int| 0 <= k < m ==> (#[trigger] voices[k]).sounding(),
        forall|k: int| m <= k < voices.len() ==> !(#[trigger] voices[k]).sounding(),
    ensures
        active_count(voices) == m,
    decreases voices.len(),
{
    if voices.len() > 0 {
        let init = voices.drop_last();
        assert forall|k: int| 0 <= k < init.len() implies init[k] == voices[k] by {}
        if m == voices.len() {
            assert(voices[m - 1].sounding());
            lemma_count_of_prefix(init, m - 1);
        } else {
            assert(!voices[voices.len() - 1].sounding());
            lemma_count_of_prefix(init, m);
        }
    }
}

/// A pool supports as many notes at once as it has voices, without taking
/// a voice from any of them. Starting from a pool in which no voice sounds,
/// let notes that differ from one another be played one after the other, no
/// more of them than the pool has voices: `pools[k]` is the pool before
/// note `k`, and `slots[k]` the voice that takes it. Then note `k` is played
/// on voice `k`, all the notes sound at the end, and the number of sounding
/// voices is the number of notes.
pub proof fn lemma_notes_fill_pool<V: PoolVoice>(
    pools: Seq<Seq<V>>,
    notes: Seq<u8>,
    slots: Seq<int>,
)
    requires
        pools.len() == notes.len() + 1,
        slots.len() == notes.len(),
        all_free(pools[0]),
        notes.len() <= pools[0].len(),
        forall|j: int, k: int| 0 <= j < k < notes.len() ==> notes[j] != notes[k],
        forall|k: int|
            0 <= k < notes.len() ==> note_on_step(
                #[trigger] pools[k],
                pools[k + 1],
                notes[k],
                slots[k],
            ),
    ensures
        forall|k: int| 0 <= k < notes.len() ==> #[trigger] slots[k] == k,
        pools.last().len() == pools[0].len(),
        holds_notes(pools.last(), notes, notes.len() as int),
        active_count(pools.last()) == notes.len(),
    decreases notes.len(),
{
    let n = notes.len() as int;
    if n == 0 {
        lemma_active_count_bounds(pools[0]);
        assert(pools.last() == pools[0]);
    } else {
        let before = pools[n - 1];
        let after = pools[n];
        let note = notes[n - 1];
        let i = slots[n - 1];
        let earlier_notes = notes.drop_last();
        assert(pools.drop_last()[0] == pools[0]);
        assert forall|k: int| 0 <= k < earlier_notes.len() implies note_on_step(
            #[trigger] pools.drop_last()[k],
            pools.drop_last()[k + 1],
            earlier_notes[k],
            slots.drop_last()[k],
        ) by {
            assert(note_on_step(pools[k], pools[k + 1], notes[k], slots[k]));
        }
        lemma_notes_fill_pool(pools.drop_last(), earlier_notes, slots.drop_last());
        assert(pools.drop_last().last() == before);
        assert(note_on_step(pools[n - 1], pools[n - 1 + 1], notes[n - 1], slots[n - 1]));
        // No voice sounds the new note, and voice n - 1 is the first free one.
        assert forall|k: int| 0 <= k < before.len() implies !plays(#[trigger] before[k], note) by {
            if k < n - 1 {
                assert(plays(before[k], earlier_notes[k]));
                assert(notes[k] != notes[n - 1]);
            }
        }
        assert(!before[n - 1].sounding());
        assert(i == n - 1) by {
            if i < n - 1 {
                assert(before[i].sounding());
            }
            if i > n - 1 {
                assert(!before[n - 1].sounding());
            }
        }
        assert forall|k: int| 0 <= k < notes.len() implies #[trigger] slots[k] == k by {
            if k < n - 1 {
                assert(slots.drop_last()[k] == k);
            }
        }
        assert forall|k: int| 0 <= k < n && k < after.len() implies plays(
            #[trigger] after[k],
            notes[k],
        ) by {
            if k < n - 1 {
                assert(after[k] == before[k]);
                assert(plays(before[k], earlier_notes[k]));
            }
        }
        assert forall|k: int| n <= k < after.len() implies !(#[trigger] after[k]).sounding() by {
            assert(after[k] == before[k]);
        }
        assert(pools.last() == after);
        lemma_count_of_prefix(after, n);
    }
}

/// One note more than the pool has voices takes the first voice from the
/// note it is sounding: in a pool in which every voice sounds, a note that
/// none of them sounds is played on the first voice, and the number of
/// sounding voices stays the size of the pool.
pub proof fn lemma_note_beyond_pool_steals<V: PoolVoice>(
    before: Seq<V>,
    after: Seq<V>,
    note: u8,
    i: int,
)
    requires
        none_free(before),
        none_playing(before, note),
        note_on_step(before, after, note, i),
    ensures
        i == 0,
        before[0].sounding(),
        active_count(before) == before.len(),
        active_count(after) == before.len(),
{
    lemma_full_pool_steals_first(before, note, i);
    lemma_active_count_bounds(before);
    assert(after =~= before.update(i, after[i]));
    lemma_note_on_count(before, note, i, after[i]);
}

} // verus!
