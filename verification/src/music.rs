//! Notes, note patterns and songs, with the queries the beat clock asks of them.

use std::collections::HashMap;
use vstd::prelude::*;

verus! {

/// A pitch index on the game's scale.
pub type Note = usize;

/// Number of pitches on the scale; transposition wraps around it.
pub const NOTE_COUNT: usize = 20;

/// Scheduling ticks per beat.
pub const SUBNOTES: i32 = 4;

/// The pitches by name, counted in semitones from the lowest, C4.
pub const C4: Note = 0;

pub const D4: Note = 2;

pub const E4: Note = 4;

pub const F4: Note = 5;

pub const G4: Note = 7;

pub const A4: Note = 9;

pub const B4: Note = 11;

pub const C5: Note = 12;

pub const D5: Note = 14;

pub const E5: Note = 16;

pub const F5: Note = 17;

pub const G5: Note = 19;

/// Every pitch of the scale once, lowest first.
pub open spec fn full_scale() -> Seq<Note> {
    Seq::new(NOTE_COUNT as nat, |i: int| i as Note)
}

/// The pitch `base` raised `round` times by `pitch_up`, wrapped onto the scale.
pub open spec fn transposed(base: int, pitch_up: int, round: int) -> int {
    (base + pitch_up * round) % (NOTE_COUNT as int)
}

/// Where `beat` falls in a cycle of `restart_at` beats. Beats before the start
/// of the song count backwards from zero.
pub open spec fn cycle_position(beat: int, restart_at: int) -> int {
    if beat >= 0 {
        beat % restart_at
    } else {
        -((-beat) % restart_at)
    }
}

/// Raises `base` by `pitch_up` once per round and wraps the result onto the scale.
pub fn transpose(base: Note, pitch_up: usize, round: u32) -> (note: Note)
    ensures
        note == transposed(base as int, pitch_up as int, round as int),
        note < NOTE_COUNT,
{
    assert(pitch_up * round <= 0xffff_ffff_ffff_ffff * 0xffff_ffff) by (nonlinear_arith)
        requires
            pitch_up <= 0xffff_ffff_ffff_ffff,
            round <= 0xffff_ffff,
    ;
    let wide: u128 = base as u128 + pitch_up as u128 * round as u128;
    (wide % 20) as usize
}

/// A piece of a song: either a pattern sung as a round, or a scale played once.
#[derive(Debug)]
#[allow(inconsistent_fields)]
pub enum Substructure {
    /// The pattern `notes` (beat offset to pitch) is sung by `rounds` voices.
    /// Voice `i` enters `repeat_at * i` beats late and `pitch_up * i` higher;
    /// the whole figure starts over every `restart_at` beats.
    Round {
        notes: HashMap<i32, Note>,
        rounds: i32,
        repeat_at: i32,
        restart_at: i32,
        pitch_up: usize,
    },
    /// One note of `notes` every `interval` beats, once through, then silence.
    Scale { notes: Vec<Note>, interval: i32 },
}

/// What a [`Substructure`] says, as mathematics.
#[allow(inconsistent_fields)]
pub enum SubstructureView {
    Round { notes: Map<i32, Note>, rounds: int, repeat_at: int, restart_at: int, pitch_up: int },
    Scale { notes: Seq<Note>, interval: int },
}

impl View for Substructure {
    type V = SubstructureView;

    open spec fn view(&self) -> SubstructureView {
        match *self {
            Substructure::Round { notes, rounds, repeat_at, restart_at, pitch_up } => {
                SubstructureView::Round {
                    notes: notes@,
                    rounds: rounds as int,
                    repeat_at: repeat_at as int,
                    restart_at: restart_at as int,
                    pitch_up: pitch_up as int,
                }
            },
            Substructure::Scale { notes, interval } => {
                SubstructureView::Scale { notes: notes@, interval: interval as int }
            },
        }
    }
}

impl SubstructureView {
    /// A round needs a positive cycle length and a scale a positive step.
    pub open spec fn wf(self) -> bool {
        match self {
            SubstructureView::Round { restart_at, .. } => restart_at > 0,
            SubstructureView::Scale { interval, .. } => interval > 0,
        }
    }

    /// Whether the last voice of a round enters before the cycle starts over,
    /// so that no voice is cut short. Songs need not keep to this: voices
    /// that enter late simply wrap into the next cycle.
    pub open spec fn voices_fit(self) -> bool {
        match self {
            SubstructureView::Round { rounds, repeat_at, restart_at, .. } => repeat_at * (rounds - 1)
                < restart_at,
            SubstructureView::Scale { .. } => true,
        }
    }

    /// The note that voice `round` of a round sings at `beat`, if it sings one:
    /// the pattern's note at the voice's own offset, raised by the voice's pitch.
    pub open spec fn echo(self, beat: int, round: int) -> Option<Note> {
        match self {
            SubstructureView::Round { notes, repeat_at, restart_at, pitch_up, .. } => {
                let nominal = cycle_position(beat, restart_at) - repeat_at * round;
                if i32::MIN <= nominal <= i32::MAX && notes.contains_key(nominal as i32) {
                    Some(transposed(notes[nominal as i32] as int, pitch_up, round) as Note)
                } else {
                    None
                }
            },
            SubstructureView::Scale { .. } => None,
        }
    }

    /// The notes that the first `voices` voices of a round sing at `beat`,
    /// lowest voice first.
    pub open spec fn echoes(self, beat: int, voices: int) -> Seq<Note>
        decreases voices,
    {
        if voices <= 0 {
            Seq::empty()
        } else {
            let earlier = self.echoes(beat, voices - 1);
            match self.echo(beat, voices - 1) {
                Some(note) => earlier.push(note),
                None => earlier,
            }
        }
    }

    /// The notes due at `beat`.
    pub open spec fn notes_at(self, beat: int) -> Seq<Note> {
        match self {
            SubstructureView::Round { rounds, .. } => self.echoes(beat, rounds),
            SubstructureView::Scale { notes, interval } => {
                if beat >= 0 && beat % interval == 0 && beat / interval < notes.len() {
                    seq![notes[beat / interval]]
                } else {
                    Seq::empty()
                }
            },
        }
    }

    /// Whether nothing more will come at or after `beat`. A round never ends;
    /// a scale has ended one step after its last note.
    pub open spec fn done(self, beat: int) -> bool {
        match self {
            SubstructureView::Round { .. } => false,
            SubstructureView::Scale { notes, interval } => beat > (notes.len() + 1) * interval,
        }
    }
}

/// Every voice of a round that has a note at `beat` is heard there: its echo
/// is among the notes due.
pub proof fn lemma_echo_is_heard(part: SubstructureView, beat: int, voices: int, voice: int)
    requires
        0 <= voice < voices,
        part.echo(beat, voice) is Some,
    ensures
        part.echoes(beat, voices).contains(part.echo(beat, voice)->0),
    decreases voices,
{
    let earlier = part.echoes(beat, voices - 1);
    if voice == voices - 1 {
        let heard = earlier.push(part.echo(beat, voice)->0);
        assert(heard[earlier.len() as int] == part.echo(beat, voice)->0);
    } else {
        lemma_echo_is_heard(part, beat, voices - 1, voice);
        let k = choose|k: int| 0 <= k < earlier.len() && earlier[k] == part.echo(beat, voice)->0;
        assert(part.echoes(beat, voices)[k] == earlier[k]);
    }
}

/// A note that the pattern of a round has at some offset is heard from voice
/// `voice` at every beat whose place in the cycle is that offset plus the
/// voice's delay, raised by the voice's pitch.
pub proof fn lemma_round_repeats(part: SubstructureView, beat: int, voice: int, offset: i32)
    requires
        part matches SubstructureView::Round { notes, rounds, repeat_at, restart_at, .. }
            && notes.contains_key(offset) && 0 <= voice < rounds && cycle_position(beat, restart_at)
            == offset + repeat_at * voice,
    ensures
        part matches SubstructureView::Round { notes, pitch_up, .. } && part.notes_at(beat).contains(
            transposed(notes[offset] as int, pitch_up, voice) as Note,
        ),
{
    match part {
        SubstructureView::Round { notes, rounds, repeat_at, restart_at, pitch_up } => {
            assert(cycle_position(beat, restart_at) - repeat_at * voice == offset);
            assert(part.echo(beat, voice) == Some(
                transposed(notes[offset] as int, pitch_up, voice) as Note,
            ));
            lemma_echo_is_heard(part, beat, rounds, voice);
        },
        SubstructureView::Scale { .. } => {},
    }
}

/// A round sounds the same one cycle later: what is due depends on the
/// beat's place in the cycle alone, however far the song has run.
pub proof fn lemma_round_is_periodic(part: SubstructureView, beat: int)
    requires
        part is Round,
        part.wf(),
        beat >= 0,
    ensures
        part matches SubstructureView::Round { restart_at, .. } && part.notes_at(beat + restart_at)
            == part.notes_at(beat),
{
    match part {
        SubstructureView::Round { rounds, .. } => {
            lemma_voices_are_periodic(part, beat, rounds);
        },
        SubstructureView::Scale { .. } => {},
    }
}

/// The first voices of a round sound the same one cycle later.
pub proof fn lemma_voices_are_periodic(part: SubstructureView, beat: int, voices: int)
    requires
        part is Round,
        part.wf(),
        beat >= 0,
    ensures
        part matches SubstructureView::Round { restart_at, .. } && part.echoes(
            beat + restart_at,
            voices,
        ) == part.echoes(beat, voices),
    decreases voices,
{
    match part {
        SubstructureView::Round { restart_at, .. } => {
            vstd::arithmetic::div_mod::lemma_mod_add_multiples_vanish(beat, restart_at);
            assert(cycle_position(beat + restart_at, restart_at) == cycle_position(
                beat,
                restart_at,
            ));
            if voices > 0 {
                lemma_voices_are_periodic(part, beat, voices - 1);
                assert(part.echo(beat + restart_at, voices - 1) == part.echo(beat, voices - 1));
            }
        },
        SubstructureView::Scale { .. } => {},
    }
}

/// Whatever a round sounds lies on the scale.
pub proof fn lemma_round_on_scale(part: SubstructureView, beat: int, voices: int)
    requires
        part is Round,
    ensures
        forall|k: int|
            0 <= k < part.echoes(beat, voices).len() ==> (#[trigger] part.echoes(beat, voices)[k])
                < NOTE_COUNT,
    decreases voices,
{
    if voices > 0 {
        lemma_round_on_scale(part, beat, voices - 1);
        let earlier = part.echoes(beat, voices - 1);
        match part.echo(beat, voices - 1) {
            Some(note) => {
                assert(note < NOTE_COUNT);
                assert forall|k: int| 0 <= k < part.echoes(beat, voices).len() implies (
                #[trigger] part.echoes(beat, voices)[k]) < NOTE_COUNT by {
                    if k < earlier.len() {
                        assert(part.echoes(beat, voices)[k] == earlier[k]);
                    }
                }
            },
            None => {},
        }
    }
}

/// A reward that is offered has not been paid out before.
pub proof fn lemma_rewards_are_unpaid(song: SongView, beat: int, paid_out: Seq<Note>)
    ensures
        forall|k: int|
            0 <= k < song.rewards_at(beat, paid_out).len() ==> !paid_out.contains(
                #[trigger] song.rewards_at(beat, paid_out)[k],
            ),
{
    let due = notes_of(song.payouts, beat);
    assert forall|k: int| 0 <= k < due.filter(not_among(paid_out)).len() implies !paid_out.contains(
        #[trigger] due.filter(not_among(paid_out))[k],
    ) by {
        due.lemma_filter_pred(not_among(paid_out), k);
    }
}

impl Clone for Substructure {
    fn clone(&self) -> (copy: Self)
        ensures
            copy@ == self@,
    {
        match self {
            Substructure::Round { notes, rounds, repeat_at, restart_at, pitch_up } => {
                Substructure::Round {
                    notes: notes.clone(),
                    rounds: *rounds,
                    repeat_at: *repeat_at,
                    restart_at: *restart_at,
                    pitch_up: *pitch_up,
                }
            },
            Substructure::Scale { notes, interval } => {
                Substructure::Scale { notes: notes.clone(), interval: *interval }
            },
        }
    }
}

impl Substructure {
    /// The notes due at `beat`, in voice order.
    pub fn get_notes_at(&self, beat: i32) -> (found: Vec<Note>)
        requires
            self@.wf(),
        ensures
            found@ == self@.notes_at(beat as int),
    {
        let mut found: Vec<Note> = Vec::new();
        match self {
            Substructure::Round { notes, rounds, repeat_at, restart_at, pitch_up } => {
                let position: i32 = beat % *restart_at;
                let mut i: i32 = 0;
                while i < *rounds
                    invariant
                        0 <= i,
                        i <= *rounds || i == 0,
                        position == cycle_position(beat as int, *restart_at as int),
                        *self == (Substructure::Round {
                            notes: *notes,
                            rounds: *rounds,
                            repeat_at: *repeat_at,
                            restart_at: *restart_at,
                            pitch_up: *pitch_up,
                        }),
                        found@ == self@.echoes(beat as int, i as int),
                    decreases *rounds - i,
                {
                    assert(-0x8000_0000 * 0x8000_0000 <= *repeat_at * i <= 0x8000_0000
                        * 0x8000_0000) by (nonlinear_arith)
                        requires
                            -0x8000_0000 <= *repeat_at < 0x8000_0000,
                            0 <= i < 0x8000_0000,
                    ;
                    let nominal: i64 = position as i64 - *repeat_at as i64 * i as i64;
                    if nominal >= i32::MIN as i64 && nominal <= i32::MAX as i64 {
                        let offset: i32 = nominal as i32;
                        match notes.get(&offset) {
                            Some(base) => {
                                found.push(transpose(*base, *pitch_up, i as u32));
                            },
                            None => {},
                        }
                    }
                    i = i + 1;
                }
            },
            Substructure::Scale { notes, interval } => {
                if beat >= 0 && beat % *interval == 0 {
                    let step: i32 = beat / *interval;
                    if (step as u64) < notes.len() as u64 {
                        found.push(notes[step as usize]);
                    }
                }
            },
        }
        found
    }

    /// Whether nothing more will come at or after `beat`.
    pub fn done(&self, beat: i64) -> (over: bool)
        ensures
            over == self@.done(beat as int),
    {
        match self {
            Substructure::Round { .. } => false,
            Substructure::Scale { notes, interval } => {
                assert(-0x8000_0000 * 0x1_0000_0000_0000_0000 <= (notes.len() + 1) * *interval
                    <= 0x8000_0000 * 0x1_0000_0000_0000_0000) by (nonlinear_arith)
                    requires
                        -0x8000_0000 <= *interval < 0x8000_0000,
                        0 <= notes.len() < 0x1_0000_0000_0000_0000,
                ;
                (beat as i128) > (notes.len() as i128 + 1) * (*interval as i128)
            },
        }
    }
}

/// The test for a note that does not occur in `notes`.
pub open spec fn not_among(notes: Seq<Note>) -> spec_fn(Note) -> bool {
    |note: Note| !notes.contains(note)
}

/// The views of a run of substructures, in order.
pub open spec fn views_of(parts: Seq<Substructure>) -> Seq<SubstructureView> {
    parts.map_values(|part: Substructure| part@)
}

/// The notes that a run of substructures has due at `beat`: those of the
/// first, then those of the second, and so on.
pub open spec fn notes_of(parts: Seq<SubstructureView>, beat: int) -> Seq<Note> {
    parts.map_values(|part: SubstructureView| part.notes_at(beat)).flatten()
}

/// A song: a tempo, the structures whose notes fall, and the payouts whose
/// notes are offered as rewards.
#[derive(Debug)]
pub struct Song {
    pub bpm: i32,
    pub structures: Vec<Substructure>,
    pub payouts: Vec<Substructure>,
    pub next_notes: Vec<Note>,
}

/// What a [`Song`] says, as mathematics.
pub struct SongView {
    pub bpm: int,
    pub structures: Seq<SubstructureView>,
    pub payouts: Seq<SubstructureView>,
    pub next_notes: Seq<Note>,
}

impl View for Song {
    type V = SongView;

    open spec fn view(&self) -> SongView {
        SongView {
            bpm: self.bpm as int,
            structures: views_of(self.structures@),
            payouts: views_of(self.payouts@),
            next_notes: self.next_notes@,
        }
    }
}

impl SongView {
    /// The tempo is positive and every part is well formed.
    pub open spec fn wf(self) -> bool {
        &&& self.bpm > 0
        &&& forall|k: int| 0 <= k < self.structures.len() ==> (#[trigger] self.structures[k]).wf()
        &&& forall|k: int| 0 <= k < self.payouts.len() ==> (#[trigger] self.payouts[k]).wf()
    }

    /// The falling notes due at `beat`.
    pub open spec fn notes_at(self, beat: int) -> Seq<Note> {
        notes_of(self.structures, beat)
    }

    /// The reward notes due at `beat` that are not among `paid_out`.
    pub open spec fn rewards_at(self, beat: int, paid_out: Seq<Note>) -> Seq<Note> {
        notes_of(self.payouts, beat).filter(not_among(paid_out))
    }

    /// The song that plays `notes` back as a scale, one on every beat, at 300
    /// beats per minute, with no rewards.
    pub open spec fn playback(notes: Seq<Note>) -> SongView {
        SongView {
            bpm: 300,
            structures: seq![SubstructureView::Scale { notes, interval: 4 }],
            payouts: Seq::empty(),
            next_notes: Seq::empty(),
        }
    }

    /// The notes that a playback song plays, in order.
    pub open spec fn playback_order(self) -> Seq<Note> {
        if self.structures.len() == 1 {
            match self.structures[0] {
                SubstructureView::Scale { notes, .. } => notes,
                SubstructureView::Round { .. } => Seq::empty(),
            }
        } else {
            Seq::empty()
        }
    }

    /// Whether this is a song of defeat: a playback of every pitch of the
    /// scale, each once, in some order.
    pub open spec fn is_lose_song(self) -> bool {
        &&& self == SongView::playback(self.playback_order())
        &&& self.playback_order().to_multiset() == full_scale().to_multiset()
    }

    /// How many beats past a structure's end the song is held to let it ring out.
    pub open spec fn settle_margin(self) -> int {
        (self.bpm / 60) * 4 + 8
    }

    /// Whether every structure had ended `settle_margin` beats before `beat`.
    pub open spec fn done(self, beat: int) -> bool {
        forall|k: int|
            0 <= k < self.structures.len() ==> (#[trigger] self.structures[k]).done(
                beat - self.settle_margin(),
            )
    }
}

impl Clone for Song {
    fn clone(&self) -> (copy: Self)
        ensures
            copy@ == self@,
    {
        let copy = Song {
            bpm: self.bpm,
            structures: self.structures.clone(),
            payouts: self.payouts.clone(),
            next_notes: self.next_notes.clone(),
        };
        assert(views_of(copy.structures@) =~= views_of(self.structures@));
        assert(views_of(copy.payouts@) =~= views_of(self.payouts@));
        copy
    }
}

/// Whether `note` occurs in `notes`.
pub fn holds(notes: &Vec<Note>, note: Note) -> (found: bool)
    ensures
        found == notes@.contains(note),
{
    let mut k: usize = 0;
    while k < notes.len()
        invariant
            k <= notes.len(),
            forall|j: int| 0 <= j < k ==> notes@[j] != note,
        decreases notes.len() - k,
    {
        if notes[k] == note {
            return true;
        }
        k = k + 1;
    }
    false
}

/// The notes of `notes` that do not occur in `excluded`, in their order.
pub fn without(notes: &Vec<Note>, excluded: &Vec<Note>) -> (kept: Vec<Note>)
    ensures
        kept@ == notes@.filter(not_among(excluded@)),
{
    let ghost keep = not_among(excluded@);
    let mut kept: Vec<Note> = Vec::new();
    let mut k: usize = 0;
    while k < notes.len()
        invariant
            k <= notes.len(),
            keep == not_among(excluded@),
            kept@ == notes@.take(k as int).filter(keep),
        decreases notes.len() - k,
    {
        proof {
            assert(notes@.take(k + 1) =~= notes@.take(k as int).push(notes@[k as int]));
            notes@.take(k as int).lemma_filter_push(notes@[k as int], keep);
        }
        if !holds(excluded, notes[k]) {
            kept.push(notes[k]);
        }
        k = k + 1;
    }
    assert(notes@.take(k as int) =~= notes@);
    kept
}

/// The notes that `parts` have due at `beat`, part by part.
fn gather(parts: &Vec<Substructure>, beat: i32) -> (found: Vec<Note>)
    requires
        forall|k: int| 0 <= k < parts@.len() ==> (#[trigger] parts@[k])@.wf(),
    ensures
        found@ == notes_of(views_of(parts@), beat as int),
{
    let ghost views = views_of(parts@);
    let ghost per_part = |part: SubstructureView| part.notes_at(beat as int);
    let mut found: Vec<Note> = Vec::new();
    let mut k: usize = 0;
    while k < parts.len()
        invariant
            k <= parts.len(),
            views == views_of(parts@),
            per_part == |part: SubstructureView| part.notes_at(beat as int),
            forall|j: int| 0 <= j < parts@.len() ==> (#[trigger] parts@[j])@.wf(),
            found@ == views.take(k as int).map_values(per_part).flatten(),
        decreases parts.len() - k,
    {
        let mut due = parts[k].get_notes_at(beat);
        proof {
            assert(views[k as int] == parts@[k as int]@);
            let before = views.take(k as int).map_values(per_part);
            assert(views.take(k + 1).map_values(per_part) =~= before.push(
                per_part(views[k as int]),
            ));
            before.lemma_flatten_push(per_part(views[k as int]));
        }
        found.append(&mut due);
        k = k + 1;
    }
    assert(views.take(k as int) =~= views);
    found
}

impl Song {
    /// Whether the tempo is positive and every part is well formed.
    pub open spec fn wf(&self) -> bool {
        self@.wf()
    }

    /// In a well-formed song each stored part is well formed.
    proof fn lemma_parts_wf(&self)
        requires
            self.wf(),
        ensures
            forall|k: int|
                0 <= k < self.structures@.len() ==> (#[trigger] self.structures@[k])@.wf(),
            forall|k: int| 0 <= k < self.payouts@.len() ==> (#[trigger] self.payouts@[k])@.wf(),
    {
        assert forall|k: int| 0 <= k < self.structures@.len() implies (#[trigger] self.structures@[
            k
        ])@.wf() by {
            assert(self@.structures[k].wf());
        }
        assert forall|k: int| 0 <= k < self.payouts@.len() implies (#[trigger] self.payouts@[
            k
        ])@.wf() by {
            assert(self@.payouts[k].wf());
        }
    }

    /// The falling notes due at `beat`: a function of the song and the beat alone.
    pub fn get_notes_at(&self, beat: i32) -> (found: Vec<Note>)
        requires
            self.wf(),
        ensures
            found@ == self@.notes_at(beat as int),
    {
        proof {
            self.lemma_parts_wf();
        }
        gather(&self.structures, beat)
    }

    /// The reward notes due at `beat`, without those already in `paid_out`.
    pub fn get_rewards_at(&self, beat: i32, paid_out: &Vec<Note>) -> (found: Vec<Note>)
        requires
            self.wf(),
        ensures
            found@ == self@.rewards_at(beat as int, paid_out@),
    {
        proof {
            self.lemma_parts_wf();
        }
        let due = gather(&self.payouts, beat);
        without(&due, paid_out)
    }

    /// Whether the song has rung out by `beat`.
    pub fn done(&self, beat: i32) -> (over: bool)
        requires
            self.wf(),
        ensures
            over == self@.done(beat as int),
    {
        let settled: i64 = beat as i64 - ((self.bpm / 60) as i64 * 4) - 8;
        let mut k: usize = 0;
        while k < self.structures.len()
            invariant
                k <= self.structures.len(),
                settled == beat - self@.settle_margin(),
                forall|j: int| 0 <= j < k ==> (#[trigger] self@.structures[j]).done(settled as int),
            decreases self.structures.len() - k,
        {
            if !self.structures[k].done(settled) {
                assert(!self@.structures[k as int].done(settled as int));
                return false;
            }
            k = k + 1;
        }
        true
    }

    /// The song that plays `notes` back, one on every beat at a brisk tempo,
    /// and offers no rewards.
    pub fn payout_song(notes: &Vec<Note>) -> (song: Song)
        ensures
            song@ == SongView::playback(notes@),
            song.wf(),
    {
        let mut structures: Vec<Substructure> = Vec::new();
        structures.push(Substructure::Scale { notes: notes.clone(), interval: 4 });
        let song = Song { bpm: 300, structures, payouts: Vec::new(), next_notes: Vec::new() };
        assert(song@.structures =~= seq![SubstructureView::Scale { notes: notes@, interval: 4 }]);
        assert(song@.payouts =~= Seq::empty());
        song
    }
}

} // verus!
