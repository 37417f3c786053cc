use beat_hopper::music::{Song, Substructure, A4, B4, C4, C5, D4, E4, F4, G4};
use beat_hopper::songbook::{pattern, SONG_COUNT};

fn none() -> Vec<usize> {
    Vec::new()
}

#[test]
fn pattern_lets_the_later_entry_count() {
    let notes = pattern(&[(0, C4), (3, D4), (0, E4)]);
    assert_eq!(notes.len(), 2);
    assert_eq!(notes.get(&0), Some(&E4));
    assert_eq!(notes.get(&3), Some(&D4));
    assert_eq!(notes.get(&1), None);
    let empty: [(i32, usize); 0] = [];
    assert!(pattern(&empty).is_empty());
}

#[test]
fn roster_is_played_in_its_order() {
    let roster = Song::songs();
    assert_eq!(SONG_COUNT, 5);
    assert_eq!(roster.len(), 5);
    let tempos: Vec<i32> = roster.iter().map(|song| song.bpm).collect();
    assert_eq!(tempos, vec![48, 240, 120, 240, 72]);
    for song in roster.iter() {
        assert_eq!(song.structures.len(), 1);
        assert_eq!(song.payouts.len(), 1);
        assert_eq!(song.next_notes, vec![C4, D4, E4, F4, G4, A4, B4, C5]);
    }
    // the second song is the scales, the fourth the coffee canon
    assert_eq!(roster[1].get_notes_at(4), vec![D4]);
    assert_eq!(roster[3].get_notes_at(4), vec![A4]);
}

#[test]
fn row_your_boat_is_a_round_of_two() {
    let song = Song::row_your_boat();
    assert_eq!(song.bpm, 48);
    assert_eq!(song.get_notes_at(0), vec![C4]);
    assert_eq!(song.get_notes_at(3), vec![C4]);
    assert_eq!(song.get_notes_at(1), none());
    // the second voice starts the tune twelve beats late
    assert_eq!(song.get_notes_at(12), vec![E4, C4]);
    assert_eq!(song.get_notes_at(15), vec![E4, C4]);
    assert_eq!(song.get_notes_at(18), vec![G4, C4]);
    assert_eq!(song.get_notes_at(42), vec![C4, E4]);
    assert_eq!(song.get_notes_at(54), vec![C4]);
    assert_eq!(song.get_notes_at(57), vec![C4]);
    assert!(!song.done(i32::MAX));
}

#[test]
fn row_your_boat_pays_out_the_octave() {
    let song = Song::row_your_boat();
    let offered: Vec<(i32, usize)> = (0..57)
        .flat_map(|beat| {
            song.get_rewards_at(beat, &vec![]).into_iter().map(move |note| (beat, note))
        })
        .collect();
    assert_eq!(
        offered,
        vec![(6, C4), (12, D4), (18, E4), (24, F4), (30, G4), (36, A4), (42, B4), (48, C5)]
    );
    assert_eq!(song.get_rewards_at(6, &vec![C4]), none());
    assert_eq!(song.get_rewards_at(6 + 57, &vec![D4]), vec![C4]);
}

#[test]
fn alouette_is_a_round_of_two() {
    let song = Song::alouette();
    assert_eq!(song.bpm, 120);
    assert_eq!(song.get_notes_at(0), vec![F4]);
    assert_eq!(song.get_notes_at(64), vec![F4, F4]);
    assert_eq!(song.get_notes_at(86), vec![12, A4]);
    assert_eq!(song.get_notes_at(126), vec![C5]);
    assert_eq!(song.get_notes_at(128), vec![F4]);
    assert_eq!(song.get_notes_at(190), vec![C5]);
    assert_eq!(song.get_notes_at(192), vec![F4]);
    assert_eq!(song.get_rewards_at(16, &vec![]), vec![C4]);
    assert_eq!(song.get_rewards_at(160, &vec![C4]), vec![C5]);
}

#[test]
fn scales_are_echoed_a_third_higher_each() {
    let song = Song::c_scale();
    assert_eq!(song.bpm, 240);
    assert_eq!(song.get_notes_at(0), vec![C4]);
    assert_eq!(song.get_notes_at(28), vec![C5, 4]);
    assert_eq!(song.get_notes_at(56), vec![C4, 16, 8]);
    assert_eq!(song.get_notes_at(84), vec![C4 + 4, (C5 + 8) % 20]);
    assert_eq!(song.get_notes_at(112), vec![8]);
    assert_eq!(song.get_notes_at(144), vec![C4]);
    assert_eq!(song.get_rewards_at(12, &vec![]), vec![C5]);
    assert_eq!(song.get_rewards_at(136, &vec![]), vec![C4]);
}

#[test]
fn coffee_is_a_round_of_three() {
    let song = Song::coffee();
    assert_eq!(song.bpm, 240);
    assert_eq!(song.get_notes_at(0), vec![C5]);
    assert_eq!(song.get_notes_at(48), vec![A4, C5]);
    assert_eq!(song.get_notes_at(96), vec![F4, A4, C5]);
    assert_eq!(song.get_notes_at(60), vec![B4 - 1, F4]);
    assert_eq!(song.get_notes_at(236), vec![F4]);
    assert_eq!(song.get_notes_at(240), vec![C5]);
    assert_eq!(song.get_rewards_at(128, &vec![]), vec![G4 + 1]);
    assert_eq!(song.get_rewards_at(232, &vec![]), vec![17]);
}

#[test]
fn donkeys_is_a_round_of_four() {
    let song = Song::donkeys();
    assert_eq!(song.bpm, 72);
    assert_eq!(song.get_notes_at(0), vec![E4]);
    assert_eq!(song.get_notes_at(16), vec![G4 + 1, E4]);
    assert_eq!(song.get_notes_at(32), vec![16, G4 + 1, E4]);
    assert_eq!(song.get_notes_at(48), vec![B4, 16, G4 + 1, E4]);
    assert_eq!(song.get_notes_at(30), vec![C4]);
    assert_eq!(song.get_notes_at(112), vec![E4]);
    assert_eq!(song.get_rewards_at(60, &vec![]), vec![C4 + 1]);
    assert_eq!(song.get_rewards_at(96, &vec![]), vec![B4]);
}

#[test]
fn lose_song_plays_every_note_once() {
    let song = Song::lose_song();
    assert_eq!(song.bpm, 300);
    assert!(song.payouts.is_empty());
    assert!(song.next_notes.is_empty());
    assert_eq!(song.structures.len(), 1);
    let mut played: Vec<usize> = Vec::new();
    for beat in 0..(20 * 4) {
        let due = song.get_notes_at(beat);
        if beat % 4 == 0 {
            assert_eq!(due.len(), 1);
        } else {
            assert!(due.is_empty());
        }
        played.extend(due);
    }
    assert_eq!(song.get_notes_at(80), none());
    played.sort();
    assert_eq!(played, (0..20).collect::<Vec<usize>>());
    // past (20 + 1) * 4 beats and the margin of (300 / 60) * 4 + 8
    assert!(!song.done(84 + 28));
    assert!(song.done(85 + 28));
}

#[test]
fn lose_song_is_shuffled() {
    let ascending: Vec<usize> = (0..20).collect();
    let mut shuffled = false;
    for _ in 0..8 {
        let song = Song::lose_song();
        let order: Vec<usize> = match &song.structures[0] {
            Substructure::Scale { notes, interval } => {
                assert_eq!(*interval, 4);
                notes.clone()
            },
            Substructure::Round { .. } => panic!("the song of defeat is a scale"),
        };
        assert_eq!(order.len(), 20);
        if order != ascending {
            shuffled = true;
        }
    }
    assert!(shuffled);
}
