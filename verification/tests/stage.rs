use beat_hopper::effects::{AnimationId, AnimationRequest, EndControl, Sound};
use beat_hopper::grid::{Platform, PlatformGrid, Spawn};
use beat_hopper::music::{Song, Substructure};
use beat_hopper::player::Downfall;
use beat_hopper::stage::{
    initialize_stage, MissIndicator, NoteIndicator, PlatformAnimation, Reaction,
    StageDescription, StageState, Transition, COUNTDOWN, MAX_MISSES, NOTES_TO_WIN,
    SHORT_COUNTDOWN,
};

/// A sub-beat of "Row, row, row your boat", at 48 beats per minute.
const ROW_TICK: u32 = 312_500;

/// A sub-beat of a playback, at 300 beats per minute.
const PLAYBACK_TICK: u32 = 50_000;

fn fresh_stage() -> StageState {
    initialize_stage(&StageDescription::default()).0
}

/// A stage whose first song has started and whose countdown is over.
fn playing_stage() -> StageState {
    let mut stage = fresh_stage();
    assert_eq!(stage.advance_phase(false), Transition::StartSong);
    let outcome = stage.beat_step(4_000_000);
    assert_eq!(outcome.tick, Some(0));
    stage
}

fn quiet() -> Reaction {
    Reaction { revived: false, sound: None, missed: false, died: false, bounced: false }
}

#[test]
fn eight_notes_win_and_three_misses_lose() {
    assert_eq!(NOTES_TO_WIN, 8);
    assert_eq!(MAX_MISSES, 3);
    assert_eq!(COUNTDOWN, -4_000_000);
    assert_eq!(SHORT_COUNTDOWN, -500_000);
}

#[test]
fn default_stage_is_five_by_four() {
    let desc = StageDescription::default();
    assert_eq!((desc.width, desc.height, desc.player_spawn), (5, 4, (0, 0)));
}

#[test]
fn initialized_stage_waits_with_alouette() {
    let (stage, spawn) = initialize_stage(&StageDescription::default());
    assert_eq!(spawn, Some(0));
    assert_eq!(stage.platforms.platforms.len(), 20);
    assert!(stage.platforms.every_platform_dead());
    assert_eq!(stage.platforms.platforms[13], Platform::new(3, 2, 5));
    assert_eq!(stage.time_in_song, COUNTDOWN);
    assert_eq!(stage.missed, 0);
    assert!(stage.notes_found.is_empty());
    assert!(!stage.playing && !stage.winning && !stage.losing);
    assert_eq!(stage.song.bpm, 120);
    assert_eq!(stage.song_index, 0);
    assert_eq!(stage.songs.len(), 5);
    assert_eq!(stage.get_spawn(), Some(12));
}

#[test]
fn initialized_stage_finds_the_spawn_platform() {
    let desc = StageDescription { width: 3, height: 2, player_spawn: (2, 1) };
    let (stage, spawn) = initialize_stage(&desc);
    assert_eq!(spawn, Some(5));
    assert_eq!(stage.platforms.platforms[5].note, 5);
    assert_eq!(stage.get_spawn(), None);
    let outside = StageDescription { width: 3, height: 2, player_spawn: (3, 0) };
    assert_eq!(initialize_stage(&outside).1, None);
    let nothing = StageDescription { width: 0, height: 0, player_spawn: (0, 0) };
    assert_eq!(initialize_stage(&nothing).1, None);
}

#[test]
fn default_session_has_no_platforms() {
    let stage = StageState::default();
    assert!(stage.platforms.platforms.is_empty());
    assert_eq!(stage.song.bpm, 120);
    assert!(!stage.playing);
    assert_eq!(stage.get_spawn(), None);
}

#[test]
fn session_target_is_the_grids() {
    let stage = fresh_stage();
    let corner = stage.platforms.platforms[0];
    assert_eq!(stage.target_platform(corner, -1, 0), None);
    assert_eq!(stage.target_platform(corner, 0, 0), Some(0));
    assert_eq!(stage.target_platform(corner, 1, 1), Some(6));
}

#[test]
fn fresh_session_starts_the_first_song() {
    let mut stage = fresh_stage();
    assert_eq!(stage.advance_phase(false), Transition::StartSong);
    assert!(stage.playing && !stage.winning && !stage.losing);
    assert_eq!(stage.song.bpm, 48);
    assert_eq!(stage.time_in_song, COUNTDOWN);
    assert_eq!(stage.song_index, 0);
    assert_eq!(stage.advance_phase(false), Transition::Stay);
    assert_eq!(stage.advance_phase(true), Transition::Stay);
}

#[test]
fn clock_stands_still_until_the_session_plays() {
    let mut stage = fresh_stage();
    let outcome = stage.beat_step(10_000_000);
    assert_eq!(outcome.tick, None);
    assert!(outcome.balls.is_empty() && outcome.pickups.is_empty());
    assert_eq!(stage.time_in_song, COUNTDOWN);
}

#[test]
fn countdown_passes_in_silence() {
    let mut stage = fresh_stage();
    stage.advance_phase(false);
    assert_eq!(stage.beat(), -13);
    let outcome = stage.beat_step(3_999_999);
    assert_eq!(outcome.tick, None);
    assert!(outcome.balls.is_empty() && outcome.pickups.is_empty());
    assert_eq!(stage.time_in_song, -1);
    assert_eq!(stage.beat(), -1);
    let outcome = stage.beat_step(1);
    assert_eq!(outcome.tick, Some(0));
    assert_eq!(outcome.balls, vec![Spawn { platform: 0, note: 0 }]);
    assert!(outcome.pickups.is_empty());
    assert_eq!(stage.beat(), 0);
}

#[test]
fn beat_fires_once_per_sub_beat() {
    let mut stage = playing_stage();
    // three frames within the first sub-beat, then one that crosses into the second
    for _ in 0..3 {
        let outcome = stage.beat_step(100_000);
        assert_eq!(outcome.tick, None);
        assert!(outcome.balls.is_empty());
    }
    let outcome = stage.beat_step(12_500);
    assert_eq!(outcome.tick, Some(1));
    assert!(outcome.balls.is_empty());
    let outcome = stage.beat_step(2 * ROW_TICK);
    assert_eq!(outcome.tick, Some(3));
    assert_eq!(outcome.balls, vec![Spawn { platform: 0, note: 0 }]);
}

#[test]
fn beat_drops_the_ticks_that_a_long_frame_skips() {
    let mut stage = playing_stage();
    // from tick 0 straight to tick 7: the notes of ticks 3 and 6 never fall
    let outcome = stage.beat_step(7 * ROW_TICK);
    assert_eq!(outcome.tick, Some(7));
    assert!(outcome.balls.is_empty());
    assert!(outcome.pickups.is_empty());
    let outcome = stage.beat_step(ROW_TICK);
    assert_eq!(outcome.tick, Some(8));
    assert_eq!(outcome.balls, vec![Spawn { platform: 2, note: 2 }]);
}

#[test]
fn beat_offers_rewards_that_are_not_yet_found() {
    let mut stage = playing_stage();
    let outcome = stage.beat_step(6 * ROW_TICK);
    assert_eq!(outcome.tick, Some(6));
    assert_eq!(outcome.balls, vec![Spawn { platform: 0, note: 0 }]);
    assert_eq!(outcome.pickups, vec![Spawn { platform: 0, note: 0 }]);
    stage.collect(2);
    let outcome = stage.beat_step(6 * ROW_TICK);
    assert_eq!(outcome.tick, Some(12));
    assert_eq!(
        outcome.balls,
        vec![Spawn { platform: 4, note: 4 }, Spawn { platform: 0, note: 0 }]
    );
    assert!(outcome.pickups.is_empty());
    assert_eq!(stage.notes_found, vec![2]);
}

#[test]
fn collecting_keeps_the_order() {
    let mut stage = playing_stage();
    stage.collect(4);
    stage.collect(0);
    stage.collect(4);
    assert_eq!(stage.notes_found, vec![4, 0, 4]);
    assert_eq!(stage.advance_phase(false), Transition::Stay);
}

#[test]
fn eighth_note_wins_once() {
    let mut stage = playing_stage();
    for note in [0, 2, 4, 5, 7, 9, 11] {
        stage.collect(note);
        assert_eq!(stage.advance_phase(false), Transition::Stay);
    }
    stage.collect(12);
    assert_eq!(stage.notes_found.len(), 8);
    assert_eq!(stage.advance_phase(false), Transition::Win);
    assert!(stage.winning && stage.playing && !stage.losing);
    assert!(stage.notes_found.is_empty());
    assert_eq!(stage.missed, 0);
    assert_eq!(stage.song_index, 1);
    assert_eq!(stage.time_in_song, SHORT_COUNTDOWN);
    assert_eq!(stage.song.bpm, 300);
    assert_eq!(stage.song.get_notes_at(0), vec![0]);
    assert_eq!(stage.song.get_notes_at(28), vec![12]);
    for _ in 0..5 {
        assert_eq!(stage.advance_phase(false), Transition::Stay);
        assert!(stage.winning);
    }
}

#[test]
fn winning_session_does_not_win_again_at_eight() {
    let mut stage = playing_stage();
    for note in 0..8 {
        stage.collect(note);
    }
    assert_eq!(stage.advance_phase(false), Transition::Win);
    for note in 10..18 {
        stage.collect(note);
    }
    assert_eq!(stage.notes_found.len(), 8);
    assert_eq!(stage.advance_phase(false), Transition::Stay);
    assert_eq!(stage.song_index, 1);
    assert_eq!(stage.notes_found.len(), 8);
}

#[test]
fn win_is_played_back_and_the_next_song_follows() {
    let mut stage = playing_stage();
    for note in [0, 2, 4, 5, 7, 9, 11, 12] {
        stage.collect(note);
    }
    assert_eq!(stage.advance_phase(false), Transition::Win);
    let outcome = stage.beat_step(500_000);
    assert_eq!(outcome.tick, Some(0));
    assert_eq!(outcome.balls, vec![Spawn { platform: 0, note: 0 }]);
    assert!(outcome.pickups.is_empty());
    let outcome = stage.beat_step(4 * PLAYBACK_TICK);
    assert_eq!(outcome.tick, Some(4));
    assert_eq!(outcome.balls, vec![Spawn { platform: 2, note: 2 }]);
    // the playback ends past (8 + 1) * 4 = 36 beats, and rings out for 28 more
    let outcome = stage.beat_step(60 * PLAYBACK_TICK);
    assert_eq!(outcome.tick, Some(64));
    assert_eq!(stage.advance_phase(false), Transition::Stay);
    let outcome = stage.beat_step(PLAYBACK_TICK);
    assert_eq!(outcome.tick, Some(65));
    assert_eq!(stage.advance_phase(false), Transition::StartSong);
    assert!(stage.playing && !stage.winning && !stage.losing);
    assert_eq!(stage.song.bpm, 240);
    assert_eq!(stage.song.get_notes_at(28), vec![12, 4]);
    assert_eq!(stage.time_in_song, COUNTDOWN);
    assert_eq!(stage.song_index, 1);
}

#[test]
fn playback_strikes_fallen_notes_off_the_found() {
    let mut stage = playing_stage();
    for note in [0, 2, 4, 5, 7, 9, 11, 12] {
        stage.collect(note);
    }
    assert_eq!(stage.advance_phase(false), Transition::Win);
    for note in [2, 0, 3, 0] {
        stage.collect(note);
    }
    let outcome = stage.beat_step(500_000);
    assert_eq!(outcome.tick, Some(0));
    assert_eq!(stage.notes_found, vec![2, 3]);
    let outcome = stage.beat_step(3 * PLAYBACK_TICK);
    assert_eq!(outcome.tick, Some(3));
    assert_eq!(stage.notes_found, vec![2, 3]);
    let outcome = stage.beat_step(PLAYBACK_TICK);
    assert_eq!(outcome.tick, Some(4));
    assert_eq!(stage.notes_found, vec![3]);
}

#[test]
fn roster_wraps_after_the_last_song() {
    let mut stage = playing_stage();
    for round in 1..=5 {
        for note in 0..8 {
            stage.collect(note);
        }
        assert_eq!(stage.advance_phase(false), Transition::Win);
        assert_eq!(stage.song_index, round % 5);
        stage.start_new_song();
        assert_eq!(stage.song.bpm, [48, 240, 120, 240, 72][round % 5]);
    }
    assert_eq!(stage.song_index, 0);
}

#[test]
fn arriving_player_taps_and_wakes_the_platform() {
    let mut stage = playing_stage();
    let reaction = stage.platform_reaction(7, Some(7), false, false);
    assert_eq!(
        reaction,
        Reaction { revived: true, sound: Some(Sound::Tap), missed: false, died: false, bounced: true }
    );
    assert_eq!(
        stage.platforms.platforms[7],
        Platform { x: 2, y: 1, has_player: true, note: 7, dead: false }
    );
    // the player stays: nothing more to answer
    assert_eq!(stage.platform_reaction(7, Some(7), false, false), quiet());
    // the player goes elsewhere
    assert_eq!(stage.platform_reaction(7, Some(8), false, false), quiet());
    assert!(!stage.platforms.platforms[7].has_player);
    assert_eq!(stage.missed, 0);
}

#[test]
fn player_in_the_air_has_not_arrived() {
    let mut stage = playing_stage();
    stage.platform_reaction(7, None, false, false);
    assert_eq!(stage.platform_reaction(7, Some(7), true, false), quiet());
    assert!(!stage.platforms.platforms[7].has_player);
    let landed = stage.platform_reaction(7, Some(7), false, false);
    assert_eq!(landed.sound, Some(Sound::Tap));
    assert!(stage.platforms.platforms[7].has_player);
}

#[test]
fn ball_on_an_empty_platform_is_a_miss() {
    let mut stage = playing_stage();
    let reaction = stage.platform_reaction(3, Some(7), false, true);
    assert_eq!(
        reaction,
        Reaction { revived: true, sound: Some(Sound::Miss), missed: true, died: false, bounced: true }
    );
    assert_eq!(stage.missed, 1);
    let reaction = stage.platform_reaction(3, None, false, true);
    assert_eq!(reaction.sound, Some(Sound::Miss));
    assert_eq!(stage.missed, 2);
}

#[test]
fn ball_where_the_player_stands_rings() {
    let mut stage = playing_stage();
    stage.platform_reaction(3, Some(3), false, false);
    let reaction = stage.platform_reaction(3, Some(3), false, true);
    assert_eq!(
        reaction,
        Reaction {
            revived: false,
            sound: Some(Sound::Foo(3)),
            missed: false,
            died: false,
            bounced: true
        }
    );
    assert_eq!(stage.missed, 0);
}

#[test]
fn ball_and_arrival_together_tap() {
    let mut stage = playing_stage();
    let reaction = stage.platform_reaction(3, Some(3), false, true);
    assert_eq!(reaction.sound, Some(Sound::Tap));
    assert!(!reaction.missed);
    assert_eq!(stage.missed, 0);
}

#[test]
fn no_miss_is_counted_while_the_player_is_in_the_air() {
    let mut stage = playing_stage();
    let reaction = stage.platform_reaction(3, Some(7), true, true);
    assert!(!reaction.missed);
    assert_eq!(reaction.sound, Some(Sound::Foo(3)));
    assert_eq!(stage.missed, 0);
}

#[test]
fn no_miss_is_counted_while_winning() {
    let mut stage = playing_stage();
    for note in 0..8 {
        stage.collect(note);
    }
    assert_eq!(stage.advance_phase(false), Transition::Win);
    let reaction = stage.platform_reaction(3, Some(7), false, true);
    assert!(!reaction.missed);
    assert_eq!(reaction.sound, Some(Sound::Note(3)));
    assert!(reaction.bounced);
    assert_eq!(stage.missed, 0);
}

#[test]
fn third_miss_loses_once() {
    let mut stage = playing_stage();
    for expected in 1..=2 {
        assert!(stage.platform_reaction(3, Some(7), false, true).missed);
        assert_eq!(stage.missed, expected);
        assert_eq!(stage.advance_phase(false), Transition::Stay);
    }
    assert!(stage.platform_reaction(4, Some(7), false, true).missed);
    assert_eq!(stage.missed, 3);
    assert_eq!(stage.advance_phase(false), Transition::Lose);
    assert!(stage.losing && stage.playing && !stage.winning);
    assert_eq!(stage.missed, 3);
    assert_eq!(stage.time_in_song, SHORT_COUNTDOWN);
    assert_eq!(stage.song.bpm, 300);
    assert_eq!(stage.song_index, 0);
    for _ in 0..5 {
        assert_eq!(stage.advance_phase(false), Transition::Stay);
        assert_eq!(stage.advance_phase(true), Transition::Stay);
        assert!(stage.losing);
    }
}

#[test]
fn misses_beyond_the_third_are_clamped_on_losing() {
    let mut stage = playing_stage();
    for _ in 0..5 {
        stage.platform_reaction(3, Some(7), false, true);
    }
    assert_eq!(stage.missed, 5);
    assert_eq!(stage.advance_phase(false), Transition::Lose);
    assert_eq!(stage.missed, 3);
    // while losing no miss is counted, so the count stays
    assert!(!stage.platform_reaction(3, Some(7), false, true).missed);
    assert_eq!(stage.missed, 3);
    assert_eq!(stage.advance_phase(false), Transition::Stay);
}

#[test]
fn win_comes_before_loss() {
    let mut stage = playing_stage();
    for note in 0..8 {
        stage.collect(note);
    }
    for _ in 0..3 {
        stage.platform_reaction(3, Some(7), false, true);
    }
    assert_eq!(stage.missed, 3);
    assert_eq!(stage.advance_phase(false), Transition::Win);
    assert_eq!(stage.missed, 0);
    assert_eq!(stage.advance_phase(false), Transition::Stay);
}

#[test]
fn miss_count_stops_at_the_end_of_the_counter() {
    let mut stage = playing_stage();
    stage.losing = true;
    stage.missed = i32::MAX;
    stage.losing = false;
    stage.winning = false;
    let reaction = stage.platform_reaction(3, None, false, true);
    assert!(reaction.missed);
    assert_eq!(stage.missed, i32::MAX);
}

#[test]
fn lost_session_lays_platforms_inert_and_resets() {
    let mut stage = playing_stage();
    for id in 0..20 {
        assert!(stage.platform_reaction(id, None, false, false).revived);
    }
    assert!(!stage.platforms.every_platform_dead());
    for _ in 0..3 {
        stage.platform_reaction(3, None, false, true);
    }
    assert_eq!(stage.advance_phase(false), Transition::Lose);
    // the song of defeat drops a ball on every platform
    let mut struck = vec![false; 20];
    let first = stage.beat_step(500_000);
    assert_eq!(first.tick, Some(0));
    let mut balls = first.balls;
    for _ in 0..19 {
        let outcome = stage.beat_step(4 * PLAYBACK_TICK);
        balls.extend(outcome.balls);
    }
    assert_eq!(balls.len(), 20);
    for ball in balls {
        assert_eq!(ball.platform, ball.note);
        let reaction = stage.platform_reaction(ball.platform, None, false, true);
        assert_eq!(
            reaction,
            Reaction {
                revived: false,
                sound: Some(Sound::Foo(ball.note)),
                missed: false,
                died: true,
                bounced: false
            }
        );
        struck[ball.platform] = true;
    }
    assert!(struck.iter().all(|&hit| hit));
    assert!(stage.platforms.every_platform_dead());
    // not before the song has rung out
    assert_eq!(stage.beat(), 76);
    assert_eq!(stage.advance_phase(true), Transition::Stay);
    stage.beat_step(37 * PLAYBACK_TICK);
    assert_eq!(stage.beat(), 113);
    // not before the players wait
    assert_eq!(stage.advance_phase(false), Transition::Stay);
    assert_eq!(stage.advance_phase(true), Transition::Reset);
    assert!(!stage.playing && !stage.losing && !stage.winning);
    assert_eq!(stage.missed, 0);
    assert_eq!(stage.song_index, 0);
    assert_eq!(stage.advance_phase(true), Transition::StartSong);
    assert_eq!(stage.song.bpm, 48);
    assert!(stage.playing);
}

#[test]
fn lost_session_waits_for_every_platform() {
    let mut stage = playing_stage();
    stage.platform_reaction(5, None, false, false);
    stage.lose();
    stage.beat_step(20_000_000);
    assert!(stage.song.done(stage.beat()));
    assert!(!stage.platforms.every_platform_dead());
    assert_eq!(stage.advance_phase(true), Transition::Stay);
    assert!(stage.platform_reaction(5, None, false, true).died);
    assert_eq!(stage.advance_phase(true), Transition::Reset);
}

#[test]
fn dead_platform_stays_down_while_losing() {
    let mut stage = playing_stage();
    stage.lose();
    let reaction = stage.platform_reaction(5, None, false, false);
    assert_eq!(reaction, quiet());
    assert!(stage.platforms.platforms[5].dead);
    let reaction = stage.platform_reaction(5, Some(5), false, false);
    assert_eq!(reaction.sound, Some(Sound::Tap));
    assert!(!reaction.bounced && !reaction.revived);
}

#[test]
fn phase_methods_set_what_they_say() {
    let mut stage = playing_stage();
    stage.collect(9);
    stage.missed = 2;
    stage.win();
    assert!(stage.winning);
    assert_eq!((stage.missed, stage.song_index), (0, 1));
    assert_eq!(stage.song.get_notes_at(0), vec![9]);
    stage.lose_with(Song::payout_song(&vec![1, 0]));
    assert!(stage.losing && stage.winning);
    assert_eq!(stage.missed, 3);
    assert_eq!(stage.song.get_notes_at(0), vec![1]);
    assert_eq!(stage.time_in_song, SHORT_COUNTDOWN);
    stage.collect(4);
    stage.reset();
    assert!(!stage.losing && !stage.winning && !stage.playing);
    assert_eq!((stage.missed, stage.song_index), (0, 0));
    assert!(stage.notes_found.is_empty());
    stage.start_new_song();
    assert!(stage.playing);
    assert_eq!(stage.song.bpm, 48);
    assert_eq!(stage.time_in_song, COUNTDOWN);
}

#[test]
fn lose_shuffles_the_whole_scale() {
    let mut stage = playing_stage();
    stage.collect(4);
    stage.lose();
    assert_eq!(stage.notes_found, vec![4]);
    let mut order = match &stage.song.structures[0] {
        Substructure::Scale { notes, .. } => notes.clone(),
        Substructure::Round { .. } => panic!("the song of defeat is a scale"),
    };
    order.sort();
    assert_eq!(order, (0..20).collect::<Vec<usize>>());
}

#[test]
fn indicators_follow_the_counters() {
    let mut stage = playing_stage();
    assert!(MissIndicator(0).lit(&stage));
    assert!(!MissIndicator(1).lit(&stage));
    stage.platform_reaction(3, None, false, true);
    assert!(MissIndicator(1).lit(&stage));
    assert!(!MissIndicator(2).lit(&stage));
    assert_eq!(NoteIndicator(0).shown(&stage), None);
    stage.collect(9);
    stage.collect(4);
    assert_eq!(NoteIndicator(0).shown(&stage), Some(9));
    assert_eq!(NoteIndicator(1).shown(&stage), Some(4));
    assert_eq!(NoteIndicator(2).shown(&stage), None);
    assert_eq!(NoteIndicator(-1).shown(&stage), None);
}

#[test]
fn session_on_a_larger_grid_spawns_on_every_platform_of_the_note() {
    let mut stage = StageState::new(PlatformGrid::new(6, 5), Song::alouette());
    stage.advance_phase(false);
    let outcome = stage.beat_step(4_000_000);
    assert_eq!(outcome.tick, Some(0));
    assert_eq!(
        outcome.balls,
        vec![Spawn { platform: 0, note: 0 }, Spawn { platform: 20, note: 0 }]
    );
}

#[test]
fn cloned_session_goes_its_own_way() {
    let mut stage = playing_stage();
    stage.collect(4);
    stage.platform_reaction(3, None, false, true);
    let mut copy = stage.clone();
    assert_eq!(copy.notes_found, vec![4]);
    assert_eq!(copy.missed, 1);
    assert_eq!(copy.time_in_song, stage.time_in_song);
    assert_eq!(copy.platforms.platforms, stage.platforms.platforms);
    assert_eq!(copy.song.bpm, 48);
    assert_eq!(copy.songs.len(), 5);
    copy.collect(9);
    copy.platform_reaction(5, Some(5), false, false);
    assert_eq!(stage.notes_found, vec![4]);
    assert!(!stage.platforms.platforms[5].has_player);
    let here = stage.beat_step(6 * ROW_TICK);
    let there = copy.beat_step(6 * ROW_TICK);
    assert_eq!(here.tick, there.tick);
    assert_eq!(here.balls, there.balls);
}

#[test]
fn losing_strikes_every_player_down() {
    let mut stage = playing_stage();
    let mut players = vec![Downfall::Standing, Downfall::Waiting];
    assert_eq!(stage.advance_with_players(&mut players, 16_000), Transition::Stay);
    assert_eq!(players, vec![Downfall::Standing, Downfall::Waiting]);
    for _ in 0..3 {
        stage.platform_reaction(3, None, false, true);
    }
    assert_eq!(stage.advance_with_players(&mut players, 16_000), Transition::Lose);
    assert!(stage.losing);
    assert_eq!(players, vec![Downfall::Dying { ttd: 300_000 }, Downfall::Dying { ttd: 300_000 }]);
    assert_eq!(stage.advance_with_players(&mut players, 16_000), Transition::Stay);
    assert_eq!(players, vec![Downfall::Dying { ttd: 284_000 }, Downfall::Dying { ttd: 284_000 }]);
}

#[test]
fn session_starts_over_once_every_player_waits() {
    let mut stage = playing_stage();
    stage.lose();
    stage.beat_step(20_000_000);
    assert!(stage.song.done(stage.beat()));
    assert!(stage.platforms.every_platform_dead());
    let mut players = vec![Downfall::Waiting, Downfall::Dying { ttd: 20_000 }];
    assert_eq!(stage.advance_with_players(&mut players, 16_000), Transition::Stay);
    assert_eq!(players, vec![Downfall::Waiting, Downfall::Dying { ttd: 4_000 }]);
    // the frame in which the last player goes to wait starts the session over
    assert_eq!(stage.advance_with_players(&mut players, 16_000), Transition::Reset);
    assert_eq!(players, vec![Downfall::Standing, Downfall::Standing]);
    assert!(!stage.playing && !stage.losing);
    assert_eq!(stage.advance_with_players(&mut players, 16_000), Transition::StartSong);
    assert_eq!(players, vec![Downfall::Standing, Downfall::Standing]);
}

#[test]
fn session_without_players_starts_over_at_once() {
    let mut stage = playing_stage();
    stage.lose();
    stage.beat_step(20_000_000);
    let mut players = vec![];
    assert_eq!(stage.advance_with_players(&mut players, 16_000), Transition::Reset);
    assert!(players.is_empty());
}

#[test]
fn standing_player_keeps_a_lost_session_waiting() {
    let mut stage = playing_stage();
    stage.lose();
    stage.beat_step(20_000_000);
    let mut players = vec![Downfall::Standing];
    for _ in 0..5 {
        assert_eq!(stage.advance_with_players(&mut players, 1_000_000), Transition::Stay);
    }
    assert_eq!(players, vec![Downfall::Standing]);
}

#[test]
fn reaction_is_shown_by_one_animation() {
    let request = |id, end| AnimationRequest { id, end };
    assert_eq!(quiet().animation(), None);
    let revived = Reaction { revived: true, ..quiet() };
    assert_eq!(
        revived.animation(),
        Some(PlatformAnimation {
            sprite: request(AnimationId::Spawn, EndControl::Stay),
            transform: request(AnimationId::Spawn, EndControl::Stay),
        })
    );
    let stirred = Reaction { revived: true, bounced: true, sound: Some(Sound::Tap), ..quiet() };
    assert_eq!(
        stirred.animation(),
        Some(PlatformAnimation {
            sprite: request(AnimationId::Move, EndControl::Stay),
            transform: request(AnimationId::Move, EndControl::Stay),
        })
    );
    let died = Reaction { died: true, sound: Some(Sound::Foo(3)), ..quiet() };
    assert_eq!(
        died.animation(),
        Some(PlatformAnimation {
            sprite: request(AnimationId::Die, EndControl::Loop),
            transform: request(AnimationId::Die, EndControl::Stay),
        })
    );
}
