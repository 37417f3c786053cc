//! The session: which song plays, what has been found and missed, and the
//! phases of play, winning and losing.

use crate::clock::{advance, crossing, due_tick, later, sub_beat, sub_beat_at};
use crate::effects::{AnimationId, AnimationRequest, EndControl, Sound};
use crate::grid::{every_dead, spawns_on, Platform, PlatformGrid, PlatformId, Spawn};
use crate::music::{not_among, without, Note, Song, SongView};
use crate::player::{Downfall, DYING_TIME};
use crate::songbook::SONG_COUNT;
use vstd::prelude::*;

verus! {

/// So many notes found win the song.
pub const NOTES_TO_WIN: usize = 8;

/// So many misses lose the song.
pub const MAX_MISSES: i32 = 3;

/// Song time at the start of a roster song: four seconds of countdown.
pub const COUNTDOWN: i64 = -4_000_000;

/// Song time at the start of a win's or a loss's playback: half a second.
pub const SHORT_COUNTDOWN: i64 = -500_000;

/// The shape of a stage: its width and height in platforms, and the
/// coordinate at which the player enters.
#[derive(Debug, Clone, Copy)]
pub struct StageDescription {
    pub width: u32,
    pub height: u32,
    pub player_spawn: (u32, u32),
}

impl Default for StageDescription {
    fn default() -> (desc: Self)
        ensures
            desc == (StageDescription { width: 5, height: 4, player_spawn: (0, 0) }),
    {
        StageDescription { width: 5, height: 4, player_spawn: (0, 0) }
    }
}

/// The state of a session.
#[derive(Debug)]
pub struct StageState {
    pub platforms: PlatformGrid,
    /// Microseconds into the song; negative while the countdown runs.
    pub time_in_song: i64,
    pub missed: i32,
    /// The notes collected so far, in the order of collection.
    pub notes_found: Vec<Note>,
    pub winning: bool,
    pub losing: bool,
    pub playing: bool,
    pub song: Song,
    pub songs: [Song; SONG_COUNT],
    /// The roster song that is, or is next to be, played.
    pub song_index: usize,
}

/// What a [`StageState`] says, as mathematics.
pub struct StageView {
    pub platforms: Seq<Platform>,
    pub width: int,
    pub height: int,
    pub time_in_song: int,
    pub missed: int,
    pub notes_found: Seq<Note>,
    pub winning: bool,
    pub losing: bool,
    pub playing: bool,
    pub song: SongView,
    pub songs: Seq<SongView>,
    pub song_index: int,
}

impl View for StageState {
    type V = StageView;

    open spec fn view(&self) -> StageView {
        StageView {
            platforms: self.platforms.platforms@,
            width: self.platforms.width as int,
            height: self.platforms.height as int,
            time_in_song: self.time_in_song as int,
            missed: self.missed as int,
            notes_found: self.notes_found@,
            winning: self.winning,
            losing: self.losing,
            playing: self.playing,
            song: self.song@,
            songs: self.songs@.map_values(|song: Song| song@),
            song_index: self.song_index as int,
        }
    }
}

impl Clone for StageState {
    fn clone(&self) -> (copy: Self)
        ensures
            copy@ == self@,
    {
        let copy = StageState {
            platforms: self.platforms.clone(),
            time_in_song: self.time_in_song,
            missed: self.missed,
            notes_found: self.notes_found.clone(),
            winning: self.winning,
            losing: self.losing,
            playing: self.playing,
            song: self.song.clone(),
            songs: [
                self.songs[0].clone(),
                self.songs[1].clone(),
                self.songs[2].clone(),
                self.songs[3].clone(),
                self.songs[4].clone(),
            ],
            song_index: self.song_index,
        };
        assert(copy@.songs =~= self@.songs);
        copy
    }
}

/// A change of phase.
#[derive(Debug, Clone, Copy, PartialEq, Eq, Structural)]
pub enum Transition {
    /// Nothing changes.
    Stay,
    /// The song is won: what was found is played back.
    Win,
    /// The song is lost: the song of defeat plays, and the players are to die.
    Lose,
    /// A roster song starts.
    StartSong,
    /// The session starts over.
    Reset,
}

impl StageView {
    /// The tick of the present moment of the song.
    pub open spec fn beat(self) -> int {
        sub_beat(self.time_in_song, self.song.bpm)
    }

    /// Whether every platform lies inert.
    pub open spec fn all_dead(self) -> bool {
        every_dead(self.platforms)
    }

    /// The session once the song is won: the notes found become the song,
    /// the counters are cleared, and the roster moves on by one.
    pub open spec fn after_win(self) -> StageView {
        StageView {
            song: SongView::playback(self.notes_found),
            time_in_song: SHORT_COUNTDOWN as int,
            missed: 0,
            notes_found: Seq::empty(),
            winning: true,
            song_index: (self.song_index + 1) % (SONG_COUNT as int),
            ..self
        }
    }

    /// The session once the song is lost, with `song` as the song of defeat.
    pub open spec fn after_lose(self, song: SongView) -> StageView {
        StageView {
            song,
            time_in_song: SHORT_COUNTDOWN as int,
            missed: MAX_MISSES as int,
            losing: true,
            ..self
        }
    }

    /// The session once the roster song under the cursor has started.
    pub open spec fn after_start(self) -> StageView {
        StageView {
            song: self.songs[self.song_index % (SONG_COUNT as int)],
            time_in_song: COUNTDOWN as int,
            playing: true,
            winning: false,
            losing: false,
            missed: 0,
            notes_found: Seq::empty(),
            ..self
        }
    }

    /// The session started over: first song, nothing found or missed, no phase.
    pub open spec fn after_reset(self) -> StageView {
        StageView {
            song_index: 0,
            missed: 0,
            notes_found: Seq::empty(),
            playing: false,
            losing: false,
            winning: false,
            ..self
        }
    }

    /// The change of phase that is due, given whether every player waits.
    ///
    /// A win comes before a loss, a loss before the end of a playback, and a
    /// session that is not playing starts its song only when none of these
    /// is due.
    pub open spec fn due_transition(self, players_waiting: bool) -> Transition {
        if self.notes_found.len() == NOTES_TO_WIN && !self.winning {
            Transition::Win
        } else if self.missed >= MAX_MISSES && !self.losing {
            Transition::Lose
        } else if self.winning && self.song.done(self.beat()) {
            Transition::StartSong
        } else if self.losing && self.song.done(self.beat()) {
            if players_waiting && self.all_dead() {
                Transition::Reset
            } else {
                Transition::Stay
            }
        } else if !self.playing {
            Transition::StartSong
        } else {
            Transition::Stay
        }
    }
}

/// What one step of the beat clock asks to be set down.
#[derive(Debug)]
pub struct BeatOutcome {
    /// The tick that fired, if one did.
    pub tick: Option<i32>,
    /// The balls to drop: one for each falling note on each platform that sounds it.
    pub balls: Vec<Spawn>,
    /// The pickups to offer: one for each reward note on each platform that sounds it.
    pub pickups: Vec<Spawn>,
}

/// How a platform answers what happened on it in a frame.
#[derive(Debug, Clone, Copy, PartialEq, Eq, Structural)]
pub struct Reaction {
    /// The platform came back to life: its spawn animation is to run.
    pub revived: bool,
    /// The sound to play, if any.
    pub sound: Option<Sound>,
    /// A miss was counted.
    pub missed: bool,
    /// The platform went inert: its die animation is to run.
    pub died: bool,
    /// The platform was stirred: its move animation is to run.
    pub bounced: bool,
}

/// The animations that a platform is asked to run: one for its sprite and
/// one for its place.
#[derive(Debug, Clone, Copy, PartialEq, Eq, Structural)]
pub struct PlatformAnimation {
    pub sprite: AnimationRequest,
    pub transform: AnimationRequest,
}

impl Reaction {
    /// The animations that go with the reaction: a platform that went inert
    /// dies, over and over; one that was stirred moves; one that came back to
    /// life spawns. Dying counts before moving, and moving before spawning.
    pub open spec fn shown(self) -> Option<PlatformAnimation> {
        if self.died {
            Some(
                PlatformAnimation {
                    sprite: AnimationRequest { id: AnimationId::Die, end: EndControl::Loop },
                    transform: AnimationRequest { id: AnimationId::Die, end: EndControl::Stay },
                },
            )
        } else if self.bounced {
            Some(
                PlatformAnimation {
                    sprite: AnimationRequest { id: AnimationId::Move, end: EndControl::Stay },
                    transform: AnimationRequest { id: AnimationId::Move, end: EndControl::Stay },
                },
            )
        } else if self.revived {
            Some(
                PlatformAnimation {
                    sprite: AnimationRequest { id: AnimationId::Spawn, end: EndControl::Stay },
                    transform: AnimationRequest { id: AnimationId::Spawn, end: EndControl::Stay },
                },
            )
        } else {
            None
        }
    }

    /// The animations that go with the reaction, if any do.
    pub fn animation(&self) -> (shown: Option<PlatformAnimation>)
        ensures
            shown == self.shown(),
    {
        let (id, end) = if self.died {
            (AnimationId::Die, EndControl::Loop)
        } else if self.bounced {
            (AnimationId::Move, EndControl::Stay)
        } else if self.revived {
            (AnimationId::Spawn, EndControl::Stay)
        } else {
            return None;
        };
        Some(
            PlatformAnimation {
                sprite: AnimationRequest { id, end },
                transform: AnimationRequest { id, end: EndControl::Stay },
            },
        )
    }
}

/// `missed` and one more miss, as far as the counter reaches.
pub open spec fn one_more(missed: int) -> int {
    if missed < i32::MAX {
        missed + 1
    } else {
        missed
    }
}

impl Platform {
    /// Whether the player has just come to stand on this platform, `id`.
    pub open spec fn arrives(
        self,
        id: PlatformId,
        standing: Option<PlatformId>,
        airborne: bool,
    ) -> bool {
        !self.has_player && standing == Some(id) && !airborne
    }

    /// Whether the player, so far counted as here, has gone elsewhere.
    pub open spec fn leaves(self, id: PlatformId, standing: Option<PlatformId>) -> bool {
        self.has_player && standing != Some(id)
    }

    /// Whether the player counts as here once the frame is looked at.
    pub open spec fn occupied_after(
        self,
        id: PlatformId,
        standing: Option<PlatformId>,
        airborne: bool,
    ) -> bool {
        if self.arrives(id, standing, airborne) {
            true
        } else if self.leaves(id, standing) {
            false
        } else {
            self.has_player
        }
    }

    /// How this platform, `id`, answers a frame in which the player stands on
    /// `standing`, is or is not `airborne`, and a ball has or has not landed here.
    ///
    /// An arriving player is answered with a tap. A ball that lands where no
    /// player is counts as a miss, unless the player is in the air or the song
    /// is already won or lost. Any other landing rings the platform's note, and
    /// while the song is lost it also lays the platform inert.
    pub open spec fn reaction(
        self,
        id: PlatformId,
        standing: Option<PlatformId>,
        airborne: bool,
        ball_landed: bool,
        winning: bool,
        losing: bool,
    ) -> Reaction {
        let arrives = self.arrives(id, standing, airborne);
        let occupied = self.occupied_after(id, standing, airborne);
        let missed = ball_landed && !arrives && !occupied && !airborne && !winning && !losing;
        let rings = ball_landed && !arrives && !missed;
        Reaction {
            revived: !losing && self.dead,
            sound: if arrives {
                Some(Sound::Tap)
            } else if missed {
                Some(Sound::Miss)
            } else if rings {
                Some(
                    if winning {
                        Sound::Note(self.note)
                    } else {
                        Sound::Foo(self.note)
                    },
                )
            } else {
                None
            },
            missed,
            died: rings && losing,
            bounced: (arrives || ball_landed) && !losing,
        }
    }

    /// This platform, `id`, after such a frame.
    pub open spec fn reacted(
        self,
        id: PlatformId,
        standing: Option<PlatformId>,
        airborne: bool,
        ball_landed: bool,
        winning: bool,
        losing: bool,
    ) -> Platform {
        let reaction = self.reaction(id, standing, airborne, ball_landed, winning, losing);
        Platform {
            has_player: self.occupied_after(id, standing, airborne),
            dead: if reaction.died {
                true
            } else if reaction.revived {
                false
            } else {
                self.dead
            },
            ..self
        }
    }
}

impl StageView {
    /// The tick that a step of `delta` microseconds makes due: none unless
    /// the session is playing, and never more than one.
    pub open spec fn tick_due(self, delta: int) -> Option<i32> {
        if self.playing {
            due_tick(
                sub_beat(self.time_in_song, self.song.bpm),
                sub_beat(later(self.time_in_song, delta), self.song.bpm),
            )
        } else {
            None
        }
    }

    /// The session after a step of `delta` microseconds: time has moved on, and
    /// while a win is played back, the notes that fell are struck off the found.
    pub open spec fn after_beat(self, delta: int) -> StageView {
        if !self.playing {
            self
        } else {
            let moved = StageView { time_in_song: later(self.time_in_song, delta), ..self };
            match self.tick_due(delta) {
                Some(tick) => if self.winning {
                    StageView {
                        notes_found: self.notes_found.filter(
                            not_among(self.song.notes_at(tick as int)),
                        ),
                        ..moved
                    }
                } else {
                    moved
                },
                None => moved,
            }
        }
    }

    /// The balls that a step of `delta` microseconds drops.
    pub open spec fn balls_due(self, delta: int) -> Seq<Spawn> {
        match self.tick_due(delta) {
            Some(tick) => spawns_on(self.platforms, self.song.notes_at(tick as int)),
            None => Seq::empty(),
        }
    }

    /// The pickups that a step of `delta` microseconds offers: none while a
    /// win is played back, and never a note that is already found.
    pub open spec fn pickups_due(self, delta: int) -> Seq<Spawn> {
        match self.tick_due(delta) {
            Some(tick) => if self.winning {
                Seq::empty()
            } else {
                spawns_on(self.platforms, self.song.rewards_at(tick as int, self.notes_found))
            },
            None => Seq::empty(),
        }
    }

    /// The session after platform `id` has answered a frame.
    pub open spec fn after_reaction(
        self,
        id: PlatformId,
        standing: Option<PlatformId>,
        airborne: bool,
        ball_landed: bool,
    ) -> StageView {
        let platform = self.platforms[id as int];
        let reaction = platform.reaction(
            id,
            standing,
            airborne,
            ball_landed,
            self.winning,
            self.losing,
        );
        StageView {
            platforms: self.platforms.update(
                id as int,
                platform.reacted(id, standing, airborne, ball_landed, self.winning, self.losing),
            ),
            missed: if reaction.missed {
                one_more(self.missed)
            } else {
                self.missed
            },
            ..self
        }
    }

    /// The session after `note` has been collected.
    pub open spec fn after_collect(self, note: Note) -> StageView {
        StageView { notes_found: self.notes_found.push(note), ..self }
    }
}

impl StageState {
    /// The grid and every song are well formed, and the cursor is on the roster.
    pub open spec fn wf(&self) -> bool {
        &&& self.platforms.wf()
        &&& self.song.wf()
        &&& forall|k: int| 0 <= k < SONG_COUNT ==> (#[trigger] self.songs@[k]).wf()
        &&& self.song_index < SONG_COUNT
    }

    /// A session on `platforms` that holds `song` ready but is not playing yet.
    pub fn new(platforms: PlatformGrid, song: Song) -> (stage: StageState)
        requires
            platforms.wf(),
            song.wf(),
        ensures
            stage.wf(),
            stage.platforms == platforms,
            stage.song == song,
            stage.time_in_song == COUNTDOWN,
            stage.missed == 0,
            stage.notes_found@ == Seq::<Note>::empty(),
            !stage.winning && !stage.losing && !stage.playing,
            stage@.songs == SongView::songs(),
            stage.song_index == 0,
    {
        let stage = StageState {
            platforms,
            time_in_song: COUNTDOWN,
            missed: 0,
            notes_found: Vec::new(),
            winning: false,
            losing: false,
            playing: false,
            song,
            songs: Song::songs(),
            song_index: 0,
        };
        assert(stage@.songs =~= SongView::songs());
        stage
    }

    /// The platform on which a player enters: the one at (2, 2), if there is one.
    pub fn get_spawn(&self) -> (spawn: Option<PlatformId>)
        requires
            self.wf(),
        ensures
            spawn == self.platforms.site(2, 2),
    {
        self.platforms.get(2, 2)
    }

    /// The neighbour of `current` one step along each axis as `tx` and `ty`
    /// point: `None` where a step would leave the grid. Nothing changes.
    pub fn target_platform(&self, current: Platform, tx: i32, ty: i32) -> (found: Option<
        PlatformId,
    >)
        requires
            self.wf(),
        ensures
            found == self.platforms.target(current, tx as int, ty as int),
            found matches Some(id) ==> id < self.platforms.platforms@.len(),
            current.x == 0 && tx < 0 ==> found is None,
            current.y == 0 && ty < 0 ==> found is None,
            tx == 0 && ty == 0 ==> found == self.platforms.site(current.x as int, current.y as int),
    {
        self.platforms.target_platform(current, tx, ty)
    }

    /// Enters the winning phase.
    pub fn win(&mut self)
        requires
            old(self).wf(),
        ensures
            final(self).wf(),
            final(self)@ == old(self)@.after_win(),
    {
        self.song = Song::payout_song(&self.notes_found);
        self.time_in_song = SHORT_COUNTDOWN;
        self.missed = 0;
        self.notes_found = Vec::new();
        self.winning = true;
        self.song_index = (self.song_index + 1) % SONG_COUNT;
    }

    /// Starts the session over.
    pub fn reset(&mut self)
        requires
            old(self).wf(),
        ensures
            final(self).wf(),
            final(self)@ == old(self)@.after_reset(),
    {
        self.song_index = 0;
        self.missed = 0;
        self.notes_found = Vec::new();
        self.playing = false;
        self.losing = false;
        self.winning = false;
    }

    /// Enters the losing phase with `song` as the song of defeat.
    pub fn lose_with(&mut self, song: Song)
        requires
            old(self).wf(),
            song.wf(),
        ensures
            final(self).wf(),
            final(self)@ == old(self)@.after_lose(song@),
    {
        self.song = song;
        self.time_in_song = SHORT_COUNTDOWN;
        self.missed = MAX_MISSES;
        self.losing = true;
    }

    /// Enters the losing phase, with a freshly shuffled song of defeat.
    pub fn lose(&mut self)
        requires
            old(self).wf(),
        ensures
            final(self).wf(),
            final(self)@ == old(self)@.after_lose(final(self)@.song),
            final(self)@.song.is_lose_song(),
    {
        let song = Song::lose_song();
        self.lose_with(song);
    }

    /// Starts the roster song under the cursor.
    pub fn start_new_song(&mut self)
        requires
            old(self).wf(),
        ensures
            final(self).wf(),
            final(self)@ == old(self)@.after_start(),
    {
        self.song = self.songs[self.song_index % SONG_COUNT].clone();
        self.time_in_song = COUNTDOWN;
        self.playing = true;
        self.winning = false;
        self.losing = false;
        self.missed = 0;
        self.notes_found = Vec::new();
    }

    /// The tick of the present moment of the song.
    pub fn beat(&self) -> (tick: i32)
        ensures
            tick == self@.beat(),
    {
        sub_beat_at(self.time_in_song, self.song.bpm)
    }

    /// Makes the change of phase that is due, and says which it was. On
    /// `Transition::Lose` the caller is to mark the players as dying.
    pub fn advance_phase(&mut self, players_waiting: bool) -> (taken: Transition)
        requires
            old(self).wf(),
        ensures
            final(self).wf(),
            taken == old(self)@.due_transition(players_waiting),
            match taken {
                Transition::Stay => final(self)@ == old(self)@,
                Transition::Win => final(self)@ == old(self)@.after_win(),
                Transition::Lose => final(self)@ == old(self)@.after_lose(final(self)@.song)
                    && final(self)@.song.is_lose_song(),
                Transition::StartSong => final(self)@ == old(self)@.after_start(),
                Transition::Reset => final(self)@ == old(self)@.after_reset(),
            },
    {
        if self.notes_found.len() == NOTES_TO_WIN && !self.winning {
            self.win();
            Transition::Win
        } else if self.missed >= MAX_MISSES && !self.losing {
            self.lose();
            Transition::Lose
        } else if self.winning && self.song.done(self.beat()) {
            self.start_new_song();
            Transition::StartSong
        } else if self.losing && self.song.done(self.beat()) {
            if players_waiting && self.platforms.every_platform_dead() {
                self.reset();
                Transition::Reset
            } else {
                Transition::Stay
            }
        } else if !self.playing {
            self.start_new_song();
            Transition::StartSong
        } else {
            Transition::Stay
        }
    }
}

impl StageState {
    /// Moves song time on by `delta` microseconds and, if that crosses into a
    /// new sub-beat of the started song, asks the song what is due there.
    ///
    /// At most one tick fires per step: where the step spans several
    /// sub-beats, only the last is asked for, and the ones between are dropped.
    pub fn beat_step(&mut self, delta: u32) -> (outcome: BeatOutcome)
        requires
            old(self).wf(),
        ensures
            final(self).wf(),
            final(self)@ == old(self)@.after_beat(delta as int),
            outcome.tick == old(self)@.tick_due(delta as int),
            outcome.balls@ == old(self)@.balls_due(delta as int),
            outcome.pickups@ == old(self)@.pickups_due(delta as int),
    {
        if !self.playing {
            return BeatOutcome { tick: None, balls: Vec::new(), pickups: Vec::new() };
        }
        let last_tick = sub_beat_at(self.time_in_song, self.song.bpm);
        self.time_in_song = advance(self.time_in_song, delta);
        let new_tick = sub_beat_at(self.time_in_song, self.song.bpm);
        match crossing(last_tick, new_tick) {
            Some(tick) => {
                let due = self.song.get_notes_at(tick);
                let balls = self.platforms.spawns_for(&due);
                let pickups = if self.winning {
                    self.notes_found = without(&self.notes_found, &due);
                    Vec::new()
                } else {
                    let rewards = self.song.get_rewards_at(tick, &self.notes_found);
                    self.platforms.spawns_for(&rewards)
                };
                BeatOutcome { tick: Some(tick), balls, pickups }
            },
            None => BeatOutcome { tick: None, balls: Vec::new(), pickups: Vec::new() },
        }
    }

    /// Lets platform `id` answer a frame in which the player stands on
    /// `standing`, is or is not `airborne`, and a ball has or has not landed
    /// on the platform. Counts the miss, if it is one.
    pub fn platform_reaction(
        &mut self,
        id: PlatformId,
        standing: Option<PlatformId>,
        airborne: bool,
        ball_landed: bool,
    ) -> (reaction: Reaction)
        requires
            old(self).wf(),
            id < old(self).platforms.platforms@.len(),
        ensures
            final(self).wf(),
            reaction == old(self)@.platforms[id as int].reaction(
                id,
                standing,
                airborne,
                ball_landed,
                old(self).winning,
                old(self).losing,
            ),
            final(self)@ == old(self)@.after_reaction(id, standing, airborne, ball_landed),
    {
        let mut platform = self.platforms.platforms[id];
        let here = match standing {
            Some(site) => site == id,
            None => false,
        };
        let arrives = !platform.has_player && here && !airborne;
        if arrives {
            platform.has_player = true;
        } else if platform.has_player && !here {
            platform.has_player = false;
        }
        let revived = !self.losing && platform.dead;
        if revived {
            platform.dead = false;
        }
        let missed = ball_landed && !arrives && !platform.has_player && !airborne && !self.winning
            && !self.losing;
        let rings = ball_landed && !arrives && !missed;
        let sound = if arrives {
            Some(Sound::Tap)
        } else if missed {
            Some(Sound::Miss)
        } else if rings {
            if self.winning {
                Some(Sound::Note(platform.note))
            } else {
                Some(Sound::Foo(platform.note))
            }
        } else {
            None
        };
        let died = rings && self.losing;
        if died {
            platform.dead = true;
        }
        if missed && self.missed < i32::MAX {
            self.missed = self.missed + 1;
        }
        self.platforms.put(id, platform);
        Reaction { revived, sound, missed, died, bounced: (arrives || ball_landed) && !self.losing }
    }

    /// Adds `note` to the notes found.
    pub fn collect(&mut self, note: Note)
        requires
            old(self).wf(),
        ensures
            final(self).wf(),
            final(self)@ == old(self)@.after_collect(note),
    {
        self.notes_found.push(note);
    }
}

/// Whether every one of `players` waits for the session to start over.
pub open spec fn all_waiting(players: Seq<Downfall>) -> bool {
    forall|k: int| 0 <= k < players.len() ==> (#[trigger] players[k]) is Waiting
}

/// `players`, each a frame of `delta` microseconds on.
pub open spec fn players_after(players: Seq<Downfall>, delta: int) -> Seq<Downfall> {
    Seq::new(players.len(), |k: int| players[k].after(delta))
}

/// How `players` fare after a frame of `delta` microseconds in which the
/// change of phase `taken` was made: a loss strikes every player down, a
/// reset puts every player back on its feet, and otherwise time passes.
pub open spec fn players_after_phase(
    players: Seq<Downfall>,
    delta: int,
    taken: Transition,
) -> Seq<Downfall> {
    match taken {
        Transition::Lose => Seq::new(players.len(), |k: int| Downfall::Dying { ttd: DYING_TIME }),
        Transition::Reset => Seq::new(players.len(), |k: int| Downfall::Standing),
        _ => players_after(players, delta),
    }
}

impl StageState {
    /// Lets a frame of `delta` microseconds pass for `players`, and makes the
    /// change of phase that is then due: the session starts over only once
    /// every player waits, and entering the losing phase strikes every
    /// player down.
    pub fn advance_with_players(&mut self, players: &mut Vec<Downfall>, delta: u32) -> (taken:
        Transition)
        requires
            old(self).wf(),
        ensures
            final(self).wf(),
            taken == old(self)@.due_transition(
                all_waiting(players_after(old(players)@, delta as int)),
            ),
            match taken {
                Transition::Stay => final(self)@ == old(self)@,
                Transition::Win => final(self)@ == old(self)@.after_win(),
                Transition::Lose => final(self)@ == old(self)@.after_lose(final(self)@.song)
                    && final(self)@.song.is_lose_song(),
                Transition::StartSong => final(self)@ == old(self)@.after_start(),
                Transition::Reset => final(self)@ == old(self)@.after_reset(),
            },
            final(players)@ == players_after_phase(old(players)@, delta as int, taken),
    {
        let ghost before = players@;
        let mut waiting = true;
        let mut k: usize = 0;
        while k < players.len()
            invariant
                k <= players.len(),
                players@.len() == before.len(),
                forall|j: int| 0 <= j < k ==> #[trigger] players@[j] == before[j].after(delta as int),
                forall|j: int| k <= j < players@.len() ==> #[trigger] players@[j] == before[j],
                waiting == all_waiting(players_after(before, delta as int).take(k as int)),
            decreases players.len() - k,
        {
            let mut downfall = players[k];
            downfall.step(delta);
            players.set(k, downfall);
            if !downfall.is_waiting() {
                waiting = false;
            }
            proof {
                let stepped = players_after(before, delta as int);
                assert(stepped.take(k + 1)[k as int] == downfall);
                if all_waiting(stepped.take(k + 1)) {
                    assert forall|j: int| 0 <= j < k implies (#[trigger] stepped.take(
                        k as int,
                    )[j]) is Waiting by {
                        assert(stepped.take(k + 1)[j] is Waiting);
                    }
                } else if downfall is Waiting {
                    assert(!all_waiting(stepped.take(k as int))) by {
                        if all_waiting(stepped.take(k as int)) {
                            assert forall|j: int| 0 <= j < k + 1 implies (#[trigger] stepped.take(
                                k + 1,
                            )[j]) is Waiting by {
                                if j < k {
                                    assert(stepped.take(k as int)[j] is Waiting);
                                }
                            }
                        }
                    }
                }
            }
            k = k + 1;
        }
        assert(players_after(before, delta as int).take(k as int) =~= players_after(
            before,
            delta as int,
        ));
        assert(players@ =~= players_after(before, delta as int));
        let taken = self.advance_phase(waiting);
        match taken {
            Transition::Lose => {
                let mut k: usize = 0;
                while k < players.len()
                    invariant
                        k <= players.len(),
                        players@.len() == before.len(),
                        forall|j: int|
                            0 <= j < k ==> #[trigger] players@[j] == (Downfall::Dying {
                                ttd: DYING_TIME,
                            }),
                    decreases players.len() - k,
                {
                    players.set(k, Downfall::strike_down());
                    k = k + 1;
                }
                assert(players@ =~= players_after_phase(before, delta as int, taken));
            },
            Transition::Reset => {
                let mut k: usize = 0;
                while k < players.len()
                    invariant
                        k <= players.len(),
                        players@.len() == before.len(),
                        forall|j: int| 0 <= j < k ==> #[trigger] players@[j] == Downfall::Standing,
                    decreases players.len() - k,
                {
                    players.set(k, Downfall::Standing);
                    k = k + 1;
                }
                assert(players@ =~= players_after_phase(before, delta as int, taken));
            },
            _ => {},
        }
        taken
    }
}

/// A session that has found its eight notes and is not yet winning enters
/// the winning phase; once winning, it does not enter it again, whatever is
/// found, until a new song clears the phase.
pub proof fn lemma_win_entered_once(stage: StageView, players_waiting: bool)
    ensures
        stage.notes_found.len() == NOTES_TO_WIN && !stage.winning ==> stage.due_transition(
            players_waiting,
        ) == Transition::Win,
        stage.winning ==> stage.due_transition(players_waiting) != Transition::Win,
        stage.after_win().winning,
        stage.after_win().due_transition(players_waiting) != Transition::Win,
{
}

/// The miss that takes the count from two to three makes the loss due,
/// unless the eighth note has been found as well; once losing, a session
/// does not enter the losing phase again, however many misses are counted.
pub proof fn lemma_third_miss_loses(
    stage: StageView,
    id: PlatformId,
    standing: Option<PlatformId>,
    airborne: bool,
    song: SongView,
    players_waiting: bool,
)
    requires
        id < stage.platforms.len(),
        stage.missed == MAX_MISSES - 1,
        stage.notes_found.len() != NOTES_TO_WIN,
        stage.platforms[id as int].reaction(
            id,
            standing,
            airborne,
            true,
            stage.winning,
            stage.losing,
        ).missed,
    ensures
        stage.after_reaction(id, standing, airborne, true).missed == MAX_MISSES,
        stage.after_reaction(id, standing, airborne, true).due_transition(players_waiting)
            == Transition::Lose,
        stage.losing ==> stage.due_transition(players_waiting) != Transition::Lose,
        stage.after_lose(song).losing,
        stage.after_lose(song).missed >= MAX_MISSES,
        stage.after_lose(song).due_transition(players_waiting) != Transition::Lose,
{
}

/// A step of the clock makes one tick due at most, and that tick is the
/// sub-beat in which the step ends: however many sub-beats the step spans,
/// the song is asked for the last one only.
pub proof fn lemma_one_tick_per_step(stage: StageView, delta: int)
    requires
        delta >= 0,
    ensures
        stage.tick_due(delta) matches Some(tick) ==> {
            &&& stage.playing
            &&& tick == sub_beat(later(stage.time_in_song, delta), stage.song.bpm)
            &&& tick >= 0
            &&& tick > sub_beat(stage.time_in_song, stage.song.bpm)
            &&& stage.balls_due(delta) == spawns_on(
                stage.platforms,
                stage.song.notes_at(tick as int),
            )
        },
        stage.tick_due(delta) is None ==> stage.balls_due(delta).len() == 0
            && stage.pickups_due(delta).len() == 0 && stage.after_beat(delta).notes_found
            == stage.notes_found,
{
}

/// No tick fires twice: of two steps one after the other that both fire, the
/// second fires a later tick than the first, however long the steps are.
pub proof fn lemma_no_tick_fires_twice(stage: StageView, first: int, second: int)
    requires
        first >= 0,
        second >= 0,
        stage.tick_due(first) is Some,
        stage.after_beat(first).tick_due(second) is Some,
    ensures
        stage.after_beat(first).tick_due(second)->0 > stage.tick_due(first)->0,
{
}

/// Sets up the stage that `stage_desc` describes: its platforms, all inert
/// and unoccupied, a session that holds "Alouette" ready, and the platform on
/// which the player enters, if the stage has one at the described coordinate.
pub fn initialize_stage(stage_desc: &StageDescription) -> (made: (StageState, Option<PlatformId>))
    requires
        stage_desc.width * stage_desc.height <= usize::MAX,
    ensures
        made.0.wf(),
        made.0.platforms.width == stage_desc.width,
        made.0.platforms.height == stage_desc.height,
        forall|x: int, y: int|
            0 <= x < stage_desc.width && 0 <= y < stage_desc.height ==> #[trigger] made.0.platforms.at(
                x,
                y,
            ) == Platform::new_spec(x, y, stage_desc.width as int),
        made.0@.song == SongView::alouette(),
        made.0@.songs == SongView::songs(),
        made.0.time_in_song == COUNTDOWN,
        made.0.missed == 0,
        made.0.notes_found@ == Seq::<Note>::empty(),
        made.0.song_index == 0,
        !made.0.winning && !made.0.losing && !made.0.playing,
        made.1 == made.0.platforms.site(
            stage_desc.player_spawn.0 as int,
            stage_desc.player_spawn.1 as int,
        ),
{
    let platforms = PlatformGrid::new(stage_desc.width, stage_desc.height);
    let spawn = platforms.get(stage_desc.player_spawn.0, stage_desc.player_spawn.1);
    let stage = StageState::new(platforms, Song::alouette());
    (stage, spawn)
}

/// A lamp of the miss display: lit once so many misses are counted.
#[derive(Debug, Clone, Copy, PartialEq, Eq, Structural)]
pub struct MissIndicator(pub i32);

impl MissIndicator {
    /// Whether the lamp is lit.
    pub fn lit(&self, stage: &StageState) -> (on: bool)
        ensures
            on == (self.0 <= stage.missed),
    {
        self.0 <= stage.missed
    }
}

/// A slot of the display of found notes.
#[derive(Debug, Clone, Copy, PartialEq, Eq, Structural)]
pub struct NoteIndicator(pub i32);

impl NoteIndicator {
    /// The found note that the slot shows: the one at its place in the order
    /// of collection, if so many are found.
    pub fn shown(&self, stage: &StageState) -> (note: Option<Note>)
        ensures
            note == (if 0 <= self.0 < stage.notes_found@.len() {
                Some(stage.notes_found@[self.0 as int])
            } else {
                None
            }),
    {
        if self.0 >= 0 && (self.0 as u64) < stage.notes_found.len() as u64 {
            Some(stage.notes_found[self.0 as usize])
        } else {
            None
        }
    }
}

impl Default for StageState {
    /// A session without platforms that holds "Alouette" ready.
    fn default() -> (stage: Self)
        ensures
            stage.wf(),
            stage@ == (StageView {
                platforms: Seq::empty(),
                width: 0,
                height: 0,
                time_in_song: COUNTDOWN as int,
                missed: 0,
                notes_found: Seq::empty(),
                winning: false,
                losing: false,
                playing: false,
                song: SongView::alouette(),
                songs: SongView::songs(),
                song_index: 0,
            }),
    {
        let stage = StageState::new(PlatformGrid::empty(), Song::alouette());
        assert(stage@.platforms =~= Seq::empty());
        stage
    }
}

} // verus!
