//! The songs of the game: their patterns, note by note, and the roster.

use crate::chance::shuffle;
use crate::music::{
    full_scale, Note, Song, SongView, Substructure, SubstructureView, A4, B4, C4, C5, D4, D5, E4,
    E5, F4, F5, G4, NOTE_COUNT,
};
use std::collections::HashMap;
use vstd::prelude::*;

verus! {

/// Number of songs on the roster.
pub const SONG_COUNT: usize = 5;

/// The pattern that a list of (beat offset, pitch) entries spells out; where
/// an offset is given twice the later entry counts.
pub open spec fn pattern_of(entries: Seq<(i32, Note)>) -> Map<i32, Note>
    decreases entries.len(),
{
    if entries.len() == 0 {
        Map::empty()
    } else {
        pattern_of(entries.drop_last()).insert(entries.last().0, entries.last().1)
    }
}

/// A pattern has a note at an offset exactly if some entry gives one there.
pub proof fn lemma_pattern_offsets(entries: Seq<(i32, Note)>, offset: i32)
    ensures
        pattern_of(entries).contains_key(offset) <==> exists|k: int|
            0 <= k < entries.len() && (#[trigger] entries[k]).0 == offset,
    decreases entries.len(),
{
    if entries.len() > 0 {
        let earlier = entries.drop_last();
        lemma_pattern_offsets(earlier, offset);
        if pattern_of(entries).contains_key(offset) {
            if entries.last().0 == offset {
                assert(entries[entries.len() - 1].0 == offset);
            } else {
                let k = choose|k: int| 0 <= k < earlier.len() && (#[trigger] earlier[k]).0 == offset;
                assert(entries[k].0 == offset);
            }
        }
        if exists|k: int| 0 <= k < entries.len() && (#[trigger] entries[k]).0 == offset {
            let k = choose|k: int| 0 <= k < entries.len() && (#[trigger] entries[k]).0 == offset;
            if k < earlier.len() {
                assert(earlier[k].0 == offset);
            }
        }
    }
}

/// A pattern has, at the offset of an entry that no later entry overrides,
/// the note of that entry.
pub proof fn lemma_pattern_entry(entries: Seq<(i32, Note)>, k: int)
    requires
        0 <= k < entries.len(),
        forall|j: int| k < j < entries.len() ==> (#[trigger] entries[j]).0 != entries[k].0,
    ensures
        pattern_of(entries).contains_key(entries[k].0),
        pattern_of(entries)[entries[k].0] == entries[k].1,
    decreases entries.len(),
{
    if k < entries.len() - 1 {
        let earlier = entries.drop_last();
        assert(entries[entries.len() - 1].0 != entries[k].0);
        assert forall|j: int| k < j < earlier.len() implies (#[trigger] earlier[j]).0
            != earlier[k].0 by {
            assert(entries[j].0 != entries[k].0);
        }
        lemma_pattern_entry(earlier, k);
    }
}

/// Builds the pattern that `entries` spell out.
pub fn pattern<const N: usize>(entries: &[(i32, Note); N]) -> (notes: HashMap<i32, Note>)
    ensures
        notes@ == pattern_of(entries@),
{
    let mut notes: HashMap<i32, Note> = HashMap::new();
    let mut k: usize = 0;
    while k < N
        invariant
            k <= N,
            entries@.len() == N,
            notes@ == pattern_of(entries@.take(k as int)),
        decreases N - k,
    {
        assert(entries@.take(k + 1).drop_last() =~= entries@.take(k as int));
        notes.insert(entries[k].0, entries[k].1);
        k = k + 1;
    }
    assert(entries@.take(k as int) =~= entries@);
    notes
}

/// "Row, row, row your boat", the pattern of the round of two voices.
pub const ROW_YOUR_BOAT: [(i32, Note); 27] = [
    (0, C4),  // Row
    (3, C4),  // Row
    (6, C4),  // Row
    (8, D4),
    (9, E4),
    (12, E4),  // Gently/Round 2
    (14, D4),
    (15, E4),
    (17, F4),
    (18, G4),  // Stream
    (24, C5),  // Merrily
    (25, C5),
    (26, C5),
    (27, G4),  // Merrily
    (28, G4),
    (29, G4),
    (30, E4),  // Merrily
    (31, E4),
    (32, E4),
    (33, C4),  // Merrily
    (34, C4),
    (35, C4),
    (36, G4),  // Life
    (38, F4),  // Is
    (39, E4),  // But
    (41, D4),  // A
    (42, C4),  // Dream
];

/// Where the rewards fall during "Row, row, row your boat".
pub const REWARD_ROW_ROW: [(i32, Note); 8] = [
    (6, C4),
    (12, D4),
    (18, E4),
    (24, F4),
    (30, G4),
    (36, A4),
    (42, B4),
    (48, C5),
];

/// "Alouette", the pattern of the round of two voices.
pub const ALOUETTE: [(i32, Note); 47] = [
    // Measure 1
    (0, F4),  // A
    (6, G4),  // lou
    (8, A4),  // et
    (12, A4),  // te
    // Measure 2
    (16, G4),  // gen
    (18, F4),  // tille
    (20, G4),  // A
    (22, A4),  // lou
    (24, F4),  // et
    (28, C4),  // te
    // Measure 3
    (32, F4),  // A
    (38, G4),  // lou
    (40, A4),  // et
    (44, A4),  // te
    // Measure 4
    (48, G4),  // je
    (50, F4),  // te
    (52, G4),  // plu
    (54, A4),  // mer
    (56, F4),  // ai
    // Measure 5
    (64, F4),  // je
    (66, E4),  // te
    (68, F4),  // plu
    (70, E4),  // mer
    (72, F4),  // ai
    (74, A4),  // la
    (76, C5),  // tete
    // Measure 6
    (80, C5),  // je
    (82, D5),  // te
    (84, C5),  // plu
    (86, B4 + 1),  // mer
    (88, A4),  // ai
    (90, G4),  // la
    (92, F4),  // tete
    // Measure 7
    (96, C5),  // Et
    (98, C5),  // le
    (100, C5),  // tete
    (104, C4),  // Et
    (106, C4),  // la
    (108, C4),  // tete
    // Measure 8
    (112, C5),  // Oh
    (114, C5),  // Oh
    (116, C5),  // Oh
    (118, C5),  // Oh
    (120, C5),  // Oh
    (122, C5),  // Oh
    (124, C5),  // Oh
    (126, C5),  // Oh
];

/// Where the rewards fall during "Alouette".
pub const REWARD_ALOUETTE: [(i32, Note); 8] = [
    (16, C4),
    (48, D4),
    (64, E4),
    (80, F4),
    (96, G4),
    (128, A4),
    (144, B4),
    (160, C5),
];

/// A scale up and down, echoed by two voices, each a third higher.
pub const C_SCALES: [(i32, Note); 15] = [
    (0, C4),
    (4, D4),
    (8, E4),
    (12, F4),
    (16, G4),
    (20, A4),
    (24, B4),
    (28, C5),
    (32, B4),
    (36, A4),
    (40, G4),
    (44, F4),
    (48, E4),
    (52, D4),
    (56, C4),
];

/// Where the rewards fall during the scales.
pub const REWARD_C_SCALE: [(i32, Note); 8] = [
    (12, C5),
    (36, B4),
    (60, A4),
    (74, G4),
    (98, F4),
    (112, E4),
    (124, D4),
    (136, C4),
];

/// The coffee canon, the pattern of the round of three voices.
pub const COFFEE: [(i32, Note); 48] = [
    (0, C5),  // C
    (4, A4),  // O
    (8, F4),  // F
    (12, F4),  // F
    (16, E4),  // E
    (20, E4),  // E
    (24, E4),  // Not
    (28, G4),  // Tea
    (32, E4),  // But
    (36, F4),  // Cof
    (38, E4),  // fee
    (40, F4),  // is
    (42, G4),  // for
    (44, F4),  // me
    // Round 2
    (48, A4),  // Cof
    (50, A4),  // fee
    (52, C5),  // mo
    (54, C5),  // cha
    (56, A4),  // Cof
    (58, A4),  // fee
    (60, B4 - 1),  // la
    (62, A4),  // tte
    (64, B4 - 1),  // Cof
    (66, C5),  // fee
    (68, B4 - 1),  // black
    // Next verse
    (72, G4),  // Are
    (74, G4),  // you
    (76, B4 - 1),  // gro
    (78, B4 - 1),  // ggy
    (80, G4),  // Cof
    (82, G4),  // fee
    (84, A4),  // gives
    (86, G4),  // you
    (88, A4),  // what
    (90, B4 - 1),  // you
    (92, A4),  // lack!
    // Round 3 and final verse
    (96, F4),  // When
    (100, F4),  // i
    (104, F4),  // am
    (108, G4),  // feel
    (112, G4),  // ing
    (116, G4),  // slow
    (120, C4),  // Time
    (124, C4),  // for
    (128, C5),  // a
    (132, C5),  // cup
    (136, C4),  // of
    (140, F4),  // Joe!
];

/// Where the rewards fall during the coffee canon.
pub const REWARD_COFFEE: [(i32, Note); 8] = [
    (32, C4),
    (64, E4),
    (96, F4),
    (128, G4 + 1),
    (160, A4),
    (192, B4 - 1),
    (224, C5),
    (232, F5),
];

/// The donkey canon, the pattern of the round of four voices.
pub const DONKEYS: [(i32, Note); 26] = [
    // Round 1
    (0, E4),  // Don
    (2, E4),  // keys
    (4, E4),  // are
    (6, F4 + 1),  // in
    (8, G4 + 1),  // love
    (10, F4 + 1),  // with
    (12, E4),  // car
    (14, C4),  // rots
    // Round 2
    (16, G4 + 1),  // Car
    (18, G4 + 1),  // rots
    (20, G4 + 1),  // aren't
    (22, A4),  // in
    (24, B4),  // love
    (26, A4),  // at
    (28, G4 + 1),  // all
    // Round 3
    (32, E5),  // all
    (36, B4),  // all
    (40, E5),  // all
    (44, B4),  // all
    // Round 4
    (48, B4),  // Car
    (50, C5 + 1),  // rots
    (52, B4),  // aren't
    (54, A4),  // in
    (56, G4 + 1),  // love
    (58, F4 + 1),  // at
    (60, E4),  // all
];

/// Where the rewards fall during the donkey canon.
pub const REWARD_DONKEYS: [(i32, Note); 8] = [
    (12, E4),
    (24, F4 + 1),
    (36, G4 + 1),
    (48, A4),
    (60, C4 + 1),
    (72, C4),
    (84, E5),
    (96, B4),
];

impl SubstructureView {
    /// "Row, row, row your boat", sung as a round of two voices.
    pub open spec fn row_your_boat() -> SubstructureView {
        SubstructureView::Round {
            notes: pattern_of(ROW_YOUR_BOAT@),
            rounds: 2,
            repeat_at: 12,
            restart_at: 57,
            pitch_up: 0,
        }
    }

    /// The rewards offered during "Row, row, row your boat".
    pub open spec fn reward_row_row() -> SubstructureView {
        SubstructureView::Round {
            notes: pattern_of(REWARD_ROW_ROW@),
            rounds: 1,
            repeat_at: 57,
            restart_at: 57,
            pitch_up: 0,
        }
    }

    /// "Alouette", sung as a round of two voices.
    pub open spec fn alouette() -> SubstructureView {
        SubstructureView::Round {
            notes: pattern_of(ALOUETTE@),
            rounds: 2,
            repeat_at: 64,
            restart_at: 192,
            pitch_up: 0,
        }
    }

    /// The rewards offered during "Alouette".
    pub open spec fn reward_alouette() -> SubstructureView {
        SubstructureView::Round {
            notes: pattern_of(REWARD_ALOUETTE@),
            rounds: 1,
            repeat_at: 192,
            restart_at: 192,
            pitch_up: 0,
        }
    }

    /// A scale up and down, echoed by two voices, each a third higher.
    pub open spec fn c_scales() -> SubstructureView {
        SubstructureView::Round {
            notes: pattern_of(C_SCALES@),
            rounds: 3,
            repeat_at: 28,
            restart_at: 144,
            pitch_up: 4,
        }
    }

    /// The rewards offered during the scales.
    pub open spec fn reward_c_scale() -> SubstructureView {
        SubstructureView::Round {
            notes: pattern_of(REWARD_C_SCALE@),
            rounds: 1,
            repeat_at: 144,
            restart_at: 144,
            pitch_up: 0,
        }
    }

    /// The coffee canon, sung as a round of three voices.
    pub open spec fn coffee() -> SubstructureView {
        SubstructureView::Round {
            notes: pattern_of(COFFEE@),
            rounds: 3,
            repeat_at: 48,
            restart_at: 240,
            pitch_up: 0,
        }
    }

    /// The rewards offered during the coffee canon.
    pub open spec fn reward_coffee() -> SubstructureView {
        SubstructureView::Round {
            notes: pattern_of(REWARD_COFFEE@),
            rounds: 1,
            repeat_at: 240,
            restart_at: 240,
            pitch_up: 0,
        }
    }

    /// The donkey canon, sung as a round of four voices.
    pub open spec fn donkeys() -> SubstructureView {
        SubstructureView::Round {
            notes: pattern_of(DONKEYS@),
            rounds: 4,
            repeat_at: 16,
            restart_at: 112,
            pitch_up: 0,
        }
    }

    /// The rewards offered during the donkey canon.
    pub open spec fn reward_donkeys() -> SubstructureView {
        SubstructureView::Round {
            notes: pattern_of(REWARD_DONKEYS@),
            rounds: 1,
            repeat_at: 112,
            restart_at: 112,
            pitch_up: 0,
        }
    }

}

impl Substructure {
    /// "Row, row, row your boat", sung as a round of two voices.
    pub fn row_your_boat() -> (part: Substructure)
        ensures
            part@ == SubstructureView::row_your_boat(),
            part@.wf(),
            part@.voices_fit(),
    {
        let rounds: i32 = 2;
        let repeat_at: i32 = 12;
        let restart_at: i32 = 57;
        assert(repeat_at * (rounds - 1) < restart_at) by (nonlinear_arith)
            requires
                rounds == 2,
                repeat_at == 12,
                restart_at == 57,
        ;
        Substructure::Round {
            notes: pattern(&ROW_YOUR_BOAT),
            rounds,
            repeat_at,
            restart_at,
            pitch_up: 0,
        }
    }

    /// The rewards offered during "Row, row, row your boat".
    pub fn reward_row_row() -> (part: Substructure)
        ensures
            part@ == SubstructureView::reward_row_row(),
            part@.wf(),
            part@.voices_fit(),
    {
        let rounds: i32 = 1;
        let repeat_at: i32 = 57;
        let restart_at: i32 = 57;
        assert(repeat_at * (rounds - 1) < restart_at) by (nonlinear_arith)
            requires
                rounds == 1,
                repeat_at == 57,
                restart_at == 57,
        ;
        Substructure::Round {
            notes: pattern(&REWARD_ROW_ROW),
            rounds,
            repeat_at,
            restart_at,
            pitch_up: 0,
        }
    }

    /// "Alouette", sung as a round of two voices.
    pub fn alouette() -> (part: Substructure)
        ensures
            part@ == SubstructureView::alouette(),
            part@.wf(),
            part@.voices_fit(),
    {
        let rounds: i32 = 2;
        let repeat_at: i32 = 64;
        let restart_at: i32 = 128 + 64;
        assert(repeat_at * (rounds - 1) < restart_at) by (nonlinear_arith)
            requires
                rounds == 2,
                repeat_at == 64,
                restart_at == 128 + 64,
        ;
        Substructure::Round {
            notes: pattern(&ALOUETTE),
            rounds,
            repeat_at,
            restart_at,
            pitch_up: 0,
        }
    }

    /// The rewards offered during "Alouette".
    pub fn reward_alouette() -> (part: Substructure)
        ensures
            part@ == SubstructureView::reward_alouette(),
            part@.wf(),
            part@.voices_fit(),
    {
        let rounds: i32 = 1;
        let repeat_at: i32 = 128 + 64;
        let restart_at: i32 = 128 + 64;
        assert(repeat_at * (rounds - 1) < restart_at) by (nonlinear_arith)
            requires
                rounds == 1,
                repeat_at == 128 + 64,
                restart_at == 128 + 64,
        ;
        Substructure::Round {
            notes: pattern(&REWARD_ALOUETTE),
            rounds,
            repeat_at,
            restart_at,
            pitch_up: 0,
        }
    }

    /// A scale up and down, echoed by two voices, each a third higher.
    pub fn c_scales() -> (part: Substructure)
        ensures
            part@ == SubstructureView::c_scales(),
            part@.wf(),
            part@.voices_fit(),
    {
        let rounds: i32 = 3;
        let repeat_at: i32 = 28;
        let restart_at: i32 = 60 + 84;
        assert(repeat_at * (rounds - 1) < restart_at) by (nonlinear_arith)
            requires
                rounds == 3,
                repeat_at == 28,
                restart_at == 60 + 84,
        ;
        Substructure::Round {
            notes: pattern(&C_SCALES),
            rounds,
            repeat_at,
            restart_at,
            pitch_up: 4,
        }
    }

    /// The rewards offered during the scales.
    pub fn reward_c_scale() -> (part: Substructure)
        ensures
            part@ == SubstructureView::reward_c_scale(),
            part@.wf(),
            part@.voices_fit(),
    {
        let rounds: i32 = 1;
        let repeat_at: i32 = 144;
        let restart_at: i32 = 144;
        assert(repeat_at * (rounds - 1) < restart_at) by (nonlinear_arith)
            requires
                rounds == 1,
                repeat_at == 144,
                restart_at == 144,
        ;
        Substructure::Round {
            notes: pattern(&REWARD_C_SCALE),
            rounds,
            repeat_at,
            restart_at,
            pitch_up: 0,
        }
    }

    /// The coffee canon, sung as a round of three voices.
    pub fn coffee() -> (part: Substructure)
        ensures
            part@ == SubstructureView::coffee(),
            part@.wf(),
            part@.voices_fit(),
    {
        let rounds: i32 = 3;
        let repeat_at: i32 = 48;
        let restart_at: i32 = 48 * 5;
        assert(repeat_at * (rounds - 1) < restart_at) by (nonlinear_arith)
            requires
                rounds == 3,
                repeat_at == 48,
                restart_at == 48 * 5,
        ;
        Substructure::Round {
            notes: pattern(&COFFEE),
            rounds,
            repeat_at,
            restart_at,
            pitch_up: 0,
        }
    }

    /// The rewards offered during the coffee canon.
    pub fn reward_coffee() -> (part: Substructure)
        ensures
            part@ == SubstructureView::reward_coffee(),
            part@.wf(),
            part@.voices_fit(),
    {
        let rounds: i32 = 1;
        let repeat_at: i32 = 240;
        let restart_at: i32 = 240;
        assert(repeat_at * (rounds - 1) < restart_at) by (nonlinear_arith)
            requires
                rounds == 1,
                repeat_at == 240,
                restart_at == 240,
        ;
        Substructure::Round {
            notes: pattern(&REWARD_COFFEE),
            rounds,
            repeat_at,
            restart_at,
            pitch_up: 0,
        }
    }

    /// The donkey canon, sung as a round of four voices.
    pub fn donkeys() -> (part: Substructure)
        ensures
            part@ == SubstructureView::donkeys(),
            part@.wf(),
            part@.voices_fit(),
    {
        let rounds: i32 = 4;
        let repeat_at: i32 = 16;
        let restart_at: i32 = 16 * 7;
        assert(repeat_at * (rounds - 1) < restart_at) by (nonlinear_arith)
            requires
                rounds == 4,
                repeat_at == 16,
                restart_at == 16 * 7,
        ;
        Substructure::Round {
            notes: pattern(&DONKEYS),
            rounds,
            repeat_at,
            restart_at,
            pitch_up: 0,
        }
    }

    /// The rewards offered during the donkey canon.
    pub fn reward_donkeys() -> (part: Substructure)
        ensures
            part@ == SubstructureView::reward_donkeys(),
            part@.wf(),
            part@.voices_fit(),
    {
        let rounds: i32 = 1;
        let repeat_at: i32 = 112;
        let restart_at: i32 = 112;
        assert(repeat_at * (rounds - 1) < restart_at) by (nonlinear_arith)
            requires
                rounds == 1,
                repeat_at == 112,
                restart_at == 112,
        ;
        Substructure::Round {
            notes: pattern(&REWARD_DONKEYS),
            rounds,
            repeat_at,
            restart_at,
            pitch_up: 0,
        }
    }

}

impl SongView {
    /// A roster song: one tune, one line of rewards, and the octave to collect.
    pub open spec fn roster_song(
        bpm: int,
        tune: SubstructureView,
        rewards: SubstructureView,
    ) -> SongView {
        SongView {
            bpm,
            structures: seq![tune],
            payouts: seq![rewards],
            next_notes: seq![C4, D4, E4, F4, G4, A4, B4, C5],
        }
    }

    /// "Row, row, row your boat".
    pub open spec fn row_your_boat() -> SongView {
        SongView::roster_song(
            48,
            SubstructureView::row_your_boat(),
            SubstructureView::reward_row_row(),
        )
    }

    /// "Alouette".
    pub open spec fn alouette() -> SongView {
        SongView::roster_song(
            120,
            SubstructureView::alouette(),
            SubstructureView::reward_alouette(),
        )
    }

    /// The scales.
    pub open spec fn c_scale() -> SongView {
        SongView::roster_song(240, SubstructureView::c_scales(), SubstructureView::reward_c_scale())
    }

    /// The coffee canon.
    pub open spec fn coffee() -> SongView {
        SongView::roster_song(240, SubstructureView::coffee(), SubstructureView::reward_coffee())
    }

    /// The donkey canon.
    pub open spec fn donkeys() -> SongView {
        SongView::roster_song(72, SubstructureView::donkeys(), SubstructureView::reward_donkeys())
    }

    /// The roster, in the order in which the songs are played.
    pub open spec fn songs() -> Seq<SongView> {
        seq![
            SongView::row_your_boat(),
            SongView::c_scale(),
            SongView::alouette(),
            SongView::coffee(),
            SongView::donkeys(),
        ]
    }
}

impl Song {
    /// A roster song: one tune, one line of rewards, and the octave to collect.
    fn roster_song(bpm: i32, tune: Substructure, rewards: Substructure) -> (song: Song)
        requires
            bpm > 0,
            tune@.wf(),
            rewards@.wf(),
        ensures
            song@ == SongView::roster_song(bpm as int, tune@, rewards@),
            song.wf(),
    {
        let mut structures: Vec<Substructure> = Vec::new();
        structures.push(tune);
        let mut payouts: Vec<Substructure> = Vec::new();
        payouts.push(rewards);
        let next_notes: Vec<Note> = vec![C4, D4, E4, F4, G4, A4, B4, C5];
        let song = Song { bpm, structures, payouts, next_notes };
        assert(song@.structures =~= seq![tune@]);
        assert(song@.payouts =~= seq![rewards@]);
        assert(song@.next_notes =~= seq![C4, D4, E4, F4, G4, A4, B4, C5]);
        song
    }

    /// "Row, row, row your boat".
    pub fn row_your_boat() -> (song: Song)
        ensures
            song@ == SongView::row_your_boat(),
            song.wf(),
    {
        Song::roster_song(48, Substructure::row_your_boat(), Substructure::reward_row_row())
    }

    /// "Alouette".
    pub fn alouette() -> (song: Song)
        ensures
            song@ == SongView::alouette(),
            song.wf(),
    {
        Song::roster_song(120, Substructure::alouette(), Substructure::reward_alouette())
    }

    /// The scales.
    pub fn c_scale() -> (song: Song)
        ensures
            song@ == SongView::c_scale(),
            song.wf(),
    {
        Song::roster_song(240, Substructure::c_scales(), Substructure::reward_c_scale())
    }

    /// The coffee canon.
    pub fn coffee() -> (song: Song)
        ensures
            song@ == SongView::coffee(),
            song.wf(),
    {
        Song::roster_song(240, Substructure::coffee(), Substructure::reward_coffee())
    }

    /// The donkey canon.
    pub fn donkeys() -> (song: Song)
        ensures
            song@ == SongView::donkeys(),
            song.wf(),
    {
        Song::roster_song(72, Substructure::donkeys(), Substructure::reward_donkeys())
    }

    /// The song of defeat: every pitch of the scale once, in an order drawn
    /// afresh for each call, played back as a scale.
    pub fn lose_song() -> (song: Song)
        ensures
            song@.is_lose_song(),
            song.wf(),
    {
        let mut notes: Vec<Note> = Vec::new();
        let mut note: Note = 0;
        while note < NOTE_COUNT
            invariant
                note <= NOTE_COUNT,
                notes@ == Seq::new(note as nat, |i: int| i as Note),
            decreases NOTE_COUNT - note,
        {
            notes.push(note);
            note = note + 1;
            assert(notes@ =~= Seq::new(note as nat, |i: int| i as Note));
        }
        shuffle(&mut notes);
        Song::payout_song(&notes)
    }

    /// The roster, in the order in which the songs are played.
    pub fn songs() -> (roster: [Song; SONG_COUNT])
        ensures
            roster@.len() == SONG_COUNT,
            forall|k: int| 0 <= k < SONG_COUNT ==> (#[trigger] roster@[k])@ == SongView::songs()[k],
            forall|k: int| 0 <= k < SONG_COUNT ==> (#[trigger] roster@[k]).wf(),
    {
        [Song::row_your_boat(), Song::c_scale(), Song::alouette(), Song::coffee(), Song::donkeys()]
    }
}

} // verus!
