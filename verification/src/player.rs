//! The player: idle, moving, jumping or landing, and how each frame's input
//! and time move it from one to the next.
//!
//! Every quantity is a whole number of a fixed unit: time in microseconds,
//! lengths in thousandths of a world unit, input axes in thousandths of full
//! tilt, and the progress of a jump in millionths of the jump.

use crate::effects::{AnimationId, AnimationRequest, EndControl, Sound};
use crate::grid::{PlatformId, Position};
use crate::stage::StageState;
use vstd::prelude::*;

verus! {

/// A direction must be held so long, in microseconds, before a jump is tried.
pub const JUMP_TRIGGER: u64 = 200_000;

/// A landing lasts so long, in microseconds.
pub const LANDING_TIME: u64 = 100_000;

/// The progress of a finished jump.
pub const FULL_PROGRESS: u32 = 1_000_000;

/// The height of a jump at its peak.
pub const JUMP_PEAK: i64 = 8_000;

/// A jumping player is drawn so far in front of the nearer platform.
pub const HOVER: i64 = 100;

/// Full tilt of an input axis.
pub const FULL_TILT: i32 = 1_000;

/// No coordinate of the world lies further than this from the origin.
pub const WORLD_LIMIT: i64 = 0x4_0000_0000_0000;

/// What the player is doing.
#[derive(Debug, Clone, Copy, PartialEq, Eq, Structural)]
pub enum PlayerState {
    Idle,
    /// Walking on a platform. `jump_impulse` is how long a single direction
    /// has been held; `tx` and `ty` are the axes as last read.
    Moving { jump_impulse: u64, tx: i32, ty: i32 },
    /// In the air between `(x1, y1)` and `(x2, y2)`, at depth `z`.
    Jumping { progress: u32, x1: i64, y1: i64, x2: i64, y2: i64, z: i64 },
    /// Down again; `ttl` is how long the landing still lasts.
    Landing { ttl: u64 },
}

/// The player.
#[derive(Debug, Clone, Copy, PartialEq, Eq, Structural)]
pub struct Player {
    /// Walking speed, in thousandths of a world unit per second at full tilt.
    pub move_speed: u32,
    /// Jumping speed, in thousandths of a jump per second.
    pub jump_speed: u32,
    pub state: PlayerState,
    /// The platform that the player stands on, or is in the air towards.
    pub platform: Option<PlatformId>,
    /// Whether the player is held back at the end of the tether.
    pub on_edge: bool,
}

/// How far to move the player, in thousandths of a world unit.
#[derive(Debug, Clone, Copy, PartialEq, Eq, Structural)]
pub struct Motion {
    pub dx: i64,
    pub dy: i64,
}

/// What a step of the jump logic asks for.
#[derive(Debug, Clone, Copy, PartialEq, Eq, Structural)]
pub struct JumpOutcome {
    /// Where to put the player, if it is to be put anywhere.
    pub position: Option<Position>,
    /// The sound to play, if any.
    pub sound: Option<Sound>,
}

/// `a / b` rounded towards zero, for a positive `b`.
pub open spec fn toward_zero(a: int, b: int) -> int {
    if a >= 0 {
        a / b
    } else {
        -((-a) / b)
    }
}

/// `tilt`, held within full tilt either way.
pub open spec fn within_full_tilt(tilt: int) -> int {
    if tilt > FULL_TILT {
        FULL_TILT as int
    } else if tilt < -FULL_TILT {
        -FULL_TILT as int
    } else {
        tilt
    }
}

/// How far an axis tilted by `tilt` moves the player in `delta` microseconds
/// at walking speed `speed`: tilt times speed times time.
pub open spec fn displacement(tilt: int, speed: int, delta: int) -> int {
    toward_zero(within_full_tilt(tilt) * speed * delta, 1_000_000_000)
}

/// A time of `held` microseconds and `delta` more, as far as the counter reaches.
pub open spec fn held_longer(held: int, delta: int) -> int {
    if held + delta > u64::MAX {
        u64::MAX as int
    } else {
        held + delta
    }
}

/// The height above the straight path at `progress` millionths of a jump:
/// a parabola from nought at take-off over the peak at mid-jump to nought
/// at touch-down.
pub open spec fn arc_height(progress: int) -> int {
    JUMP_PEAK - (32 * ((progress - 500_000) * (progress - 500_000))) / 1_000_000_000
}

/// `progress`, held to a finished jump at most.
pub open spec fn within_jump(progress: int) -> int {
    if progress > FULL_PROGRESS {
        FULL_PROGRESS as int
    } else {
        progress
    }
}

/// The point `progress` millionths of the way from `v1` to `v2`.
pub open spec fn interpolated(progress: int, v1: int, v2: int) -> int {
    v1 + (within_jump(progress) * (v2 - v1)) / (FULL_PROGRESS as int)
}

/// The progress of a jump `delta` microseconds on, at `jump_speed`.
pub open spec fn progressed(progress: int, jump_speed: int, delta: int) -> int {
    progress + (delta * jump_speed) / 1000
}

/// The height above the straight path at `progress` millionths of a jump.
pub fn jump_height(progress: u32) -> (height: i64)
    ensures
        height == arc_height(progress as int),
{
    let off_peak: i128 = progress as i128 - 500_000;
    assert(0 <= off_peak * off_peak <= 0x1_0000_0000 * 0x1_0000_0000) by (nonlinear_arith)
        requires
            -0x1_0000_0000 <= off_peak <= 0x1_0000_0000,
    ;
    let square: i128 = off_peak * off_peak;
    let drop: i128 = (32 * square) / 1_000_000_000;
    (8_000 - drop) as i64
}

/// The point `progress` millionths of the way from `v1` to `v2`; a progress
/// beyond the full jump counts as the full jump.
pub fn lerp(progress: u32, v1: i64, v2: i64) -> (v: i64)
    ensures
        v == interpolated(progress as int, v1 as int, v2 as int),
        v1 <= v2 ==> v1 <= v <= v2,
        v2 <= v1 ==> v2 <= v <= v1,
{
    let part: i128 = if progress > FULL_PROGRESS {
        1_000_000
    } else {
        progress as i128
    };
    let span: i128 = v2 as i128 - v1 as i128;
    assert(-0x1_0000_0000_0000_0000 * 1_000_000 <= part * span <= 0x1_0000_0000_0000_0000
        * 1_000_000) by (nonlinear_arith)
        requires
            0 <= part <= 1_000_000,
            -0x1_0000_0000_0000_0000 <= span <= 0x1_0000_0000_0000_0000,
    ;
    let scaled: i128 = part * span;
    let toward_zero: i128 = scaled / 1_000_000;
    let floor: i128 = if scaled % 1_000_000 < 0 {
        toward_zero - 1
    } else {
        toward_zero
    };
    assert(floor == (part * span) / 1_000_000);
    assert(span >= 0 ==> 0 <= part * span <= 1_000_000 * span) by (nonlinear_arith)
        requires
            0 <= part <= 1_000_000,
    ;
    assert(span <= 0 ==> 1_000_000 * span <= part * span <= 0) by (nonlinear_arith)
        requires
            0 <= part <= 1_000_000,
    ;
    (v1 as i128 + floor) as i64
}

impl PlayerState {
    /// Whether the player is in the air: true of a jump, and of nothing else.
    pub fn is_airborne(&self) -> (airborne: bool)
        ensures
            airborne == (self is Jumping),
    {
        match self {
            PlayerState::Jumping { .. } => true,
            _ => false,
        }
    }

    /// The animation that goes with the state, if one does.
    pub fn animation(&self) -> (request: Option<AnimationRequest>)
        ensures
            request == match *self {
                PlayerState::Idle => None,
                PlayerState::Moving { .. } => Some(
                    AnimationRequest { id: AnimationId::Move, end: EndControl::Normal },
                ),
                PlayerState::Jumping { .. } => Some(
                    AnimationRequest { id: AnimationId::Jump, end: EndControl::Stay },
                ),
                PlayerState::Landing { .. } => Some(
                    AnimationRequest { id: AnimationId::Land, end: EndControl::Stay },
                ),
            },
    {
        match self {
            PlayerState::Idle => None,
            PlayerState::Moving { .. } => Some(
                AnimationRequest { id: AnimationId::Move, end: EndControl::Normal },
            ),
            PlayerState::Jumping { .. } => Some(
                AnimationRequest { id: AnimationId::Jump, end: EndControl::Stay },
            ),
            PlayerState::Landing { .. } => Some(
                AnimationRequest { id: AnimationId::Land, end: EndControl::Stay },
            ),
        }
    }

    /// The state after a frame of `delta` microseconds with the axes at
    /// `x_tilt` and `y_tilt`.
    ///
    /// A jump runs on untouched. A landing counts down and ends in idleness.
    /// Otherwise any tilt means moving. While a single axis is tilted, the
    /// time for which a direction has been held grows by the frame; a frame
    /// with both axes tilted sets that time to nought, so that no jump can be
    /// had on the diagonal. No tilt means idleness.
    pub open spec fn after_movement(self, x_tilt: int, y_tilt: int, delta: int) -> PlayerState {
        match self {
            PlayerState::Jumping { .. } => self,
            PlayerState::Landing { ttl } => if ttl < delta {
                PlayerState::Idle
            } else {
                PlayerState::Landing { ttl: (ttl - delta) as u64 }
            },
            _ => if x_tilt != 0 || y_tilt != 0 {
                let held: int = match self {
                    PlayerState::Moving { jump_impulse, .. } => jump_impulse as int,
                    _ => 0,
                };
                PlayerState::Moving {
                    jump_impulse: if x_tilt != 0 && y_tilt != 0 {
                        0
                    } else {
                        held_longer(held, delta) as u64
                    },
                    tx: x_tilt as i32,
                    ty: y_tilt as i32,
                }
            } else {
                PlayerState::Idle
            },
        }
    }

    /// Whether the player walks: it is neither in the air nor landing.
    pub open spec fn walks(self) -> bool {
        self is Idle || self is Moving
    }
}

/// How far an axis tilted by `tilt` moves the player in `delta` microseconds
/// at walking speed `speed`.
pub fn displaced(tilt: i32, speed: u32, delta: u32) -> (by: i64)
    ensures
        by == displacement(tilt as int, speed as int, delta as int),
{
    let held: i128 = if tilt > FULL_TILT {
        1_000
    } else if tilt < -FULL_TILT {
        -1_000
    } else {
        tilt as i128
    };
    assert(-1_000 * 0xffff_ffff <= held * speed <= 1_000 * 0xffff_ffff) by (nonlinear_arith)
        requires
            -1_000 <= held <= 1_000,
            0 <= speed <= 0xffff_ffff,
    ;
    let rate: i128 = held * speed as i128;
    assert(-1_000 * 0xffff_ffff * 0xffff_ffff <= rate * delta <= 1_000 * 0xffff_ffff * 0xffff_ffff)
        by (nonlinear_arith)
        requires
            -1_000 * 0xffff_ffff <= rate <= 1_000 * 0xffff_ffff,
            0 <= delta <= 0xffff_ffff,
    ;
    let scaled: i128 = rate * delta as i128;
    (scaled / 1_000_000_000) as i64
}

impl Player {
    /// A player fresh on `platform`: idle, walking at 64 units a second and
    /// jumping in a quarter of a second.
    pub fn new(platform: Option<PlatformId>) -> (player: Player)
        ensures
            player == (Player {
                move_speed: 64_000,
                jump_speed: 4_000,
                state: PlayerState::Idle,
                platform,
                on_edge: false,
            }),
    {
        Player {
            move_speed: 64_000,
            jump_speed: 4_000,
            state: PlayerState::Idle,
            platform,
            on_edge: false,
        }
    }

    /// How far a frame of `delta` microseconds moves the player with the axes
    /// at `x_tilt` and `y_tilt`: not at all unless it walks.
    pub open spec fn motion(self, x_tilt: int, y_tilt: int, delta: int) -> Motion {
        if self.state.walks() {
            Motion {
                dx: displacement(x_tilt, self.move_speed as int, delta) as i64,
                dy: displacement(y_tilt, self.move_speed as int, delta) as i64,
            }
        } else {
            Motion { dx: 0, dy: 0 }
        }
    }

    /// Takes a frame's input: moves the state on, and says how far the player
    /// is to be moved. A frame in which either axis gives no reading changes
    /// nothing.
    pub fn movement_step(&mut self, x_tilt: Option<i32>, y_tilt: Option<i32>, delta: u32) -> (by:
        Motion)
        ensures
            x_tilt is None || y_tilt is None ==> *final(self) == *old(self) && by == (Motion {
                dx: 0,
                dy: 0,
            }),
            x_tilt is Some && y_tilt is Some ==> {
                &&& *final(self) == (Player {
                    state: old(self).state.after_movement(
                        x_tilt->0 as int,
                        y_tilt->0 as int,
                        delta as int,
                    ),
                    ..*old(self)
                })
                &&& by == old(self).motion(x_tilt->0 as int, y_tilt->0 as int, delta as int)
            },
    {
        let (x, y) = match (x_tilt, y_tilt) {
            (Some(x), Some(y)) => (x, y),
            _ => {
                return Motion { dx: 0, dy: 0 };
            },
        };
        match self.state {
            PlayerState::Jumping { .. } => Motion { dx: 0, dy: 0 },
            PlayerState::Landing { ttl } => {
                if ttl < delta as u64 {
                    self.state = PlayerState::Idle;
                } else {
                    self.state = PlayerState::Landing { ttl: ttl - delta as u64 };
                }
                Motion { dx: 0, dy: 0 }
            },
            _ => {
                let by = Motion {
                    dx: displaced(x, self.move_speed, delta),
                    dy: displaced(y, self.move_speed, delta),
                };
                if x != 0 || y != 0 {
                    let held: u64 = match self.state {
                        PlayerState::Moving { jump_impulse, .. } => jump_impulse,
                        _ => 0,
                    };
                    let jump_impulse: u64 = if x != 0 && y != 0 {
                        0
                    } else if held > u64::MAX - delta as u64 {
                        u64::MAX
                    } else {
                        held + delta as u64
                    };
                    self.state = PlayerState::Moving { jump_impulse, tx: x, ty: y };
                } else {
                    self.state = PlayerState::Idle;
                }
                by
            },
        }
    }
}

impl Position {
    /// Whether the point lies within the limits of the world.
    pub open spec fn in_world(self) -> bool {
        &&& -WORLD_LIMIT <= self.x <= WORLD_LIMIT
        &&& -WORLD_LIMIT <= self.y <= WORLD_LIMIT
        &&& -WORLD_LIMIT <= self.z <= WORLD_LIMIT
    }

    /// Whether the point lies within the limits of the world.
    pub fn is_in_world(&self) -> (inside: bool)
        ensures
            inside == self.in_world(),
    {
        -WORLD_LIMIT <= self.x && self.x <= WORLD_LIMIT && -WORLD_LIMIT <= self.y && self.y
            <= WORLD_LIMIT && -WORLD_LIMIT <= self.z && self.z <= WORLD_LIMIT
    }
}

/// The smaller of two depths.
pub open spec fn nearer(z1: int, z2: int) -> int {
    if z1 <= z2 {
        z1
    } else {
        z2
    }
}

impl Player {
    /// A jump in progress has not run past its end, and it starts and ends
    /// within the world.
    pub open spec fn wf(self) -> bool {
        match self.state {
            PlayerState::Jumping { progress, x1, y1, x2, y2, z } => {
                &&& progress <= FULL_PROGRESS
                &&& (Position { x: x1, y: y1, z }).in_world()
                &&& (Position { x: x2, y: y2, z }).in_world()
            },
            _ => true,
        }
    }

    /// The platform that the player takes off for, if it takes off: it must be
    /// moving, held at the edge, and have held its direction beyond the
    /// trigger time; and the grid must have a platform that way.
    pub open spec fn jump_target(self, stage: &StageState) -> Option<PlatformId> {
        match self.state {
            PlayerState::Moving { jump_impulse, tx, ty } => if self.on_edge && jump_impulse
                > JUMP_TRIGGER {
                match self.platform {
                    Some(id) => if id < stage.platforms.platforms@.len() {
                        stage.platforms.target(
                            stage.platforms.platforms@[id as int],
                            tx as int,
                            ty as int,
                        )
                    } else {
                        None
                    },
                    None => None,
                }
            } else {
                None
            },
            _ => None,
        }
    }

    /// The player after a step of the jump logic, `delta` microseconds long,
    /// taken at the point `at`.
    ///
    /// A jump moves on and, once past its end, becomes a landing. A take-off
    /// starts a jump from `at` to the anchor of the target, and the target
    /// becomes the player's platform. Nothing else changes.
    pub open spec fn after_jump_step(self, stage: &StageState, at: Position, delta: int) -> Player {
        match self.state {
            PlayerState::Jumping { progress, x1, y1, x2, y2, z } => {
                let next = progressed(progress as int, self.jump_speed as int, delta);
                Player {
                    state: if next > FULL_PROGRESS {
                        PlayerState::Landing { ttl: LANDING_TIME }
                    } else {
                        PlayerState::Jumping { progress: next as u32, x1, y1, x2, y2, z }
                    },
                    ..self
                }
            },
            _ => match self.jump_target(stage) {
                Some(target) => {
                    let end = stage.platforms.platforms@[target as int].anchor_of();
                    Player {
                        state: PlayerState::Jumping {
                            progress: 0,
                            x1: at.x,
                            y1: at.y,
                            x2: end.x,
                            y2: end.y,
                            z: (nearer(at.z as int, end.z as int) + HOVER) as i64,
                        },
                        platform: Some(target),
                        ..self
                    }
                },
                None => self,
            },
        }
    }

    /// What such a step asks for: a jumping player is put on its arc, and a
    /// take-off is heard.
    pub open spec fn jump_outcome(self, stage: &StageState) -> JumpOutcome {
        match self.state {
            PlayerState::Jumping { progress, x1, y1, x2, y2, z } => JumpOutcome {
                position: Some(
                    Position {
                        x: interpolated(progress as int, x1 as int, x2 as int) as i64,
                        y: (interpolated(progress as int, y1 as int, y2 as int) + arc_height(
                            progress as int,
                        )) as i64,
                        z,
                    },
                ),
                sound: None,
            },
            _ => JumpOutcome {
                position: None,
                sound: if self.jump_target(stage) is Some {
                    Some(Sound::Jump)
                } else {
                    None
                },
            },
        }
    }

    /// Takes a step of the jump logic, `delta` microseconds long, with the
    /// player at the point `at`.
    pub fn jump_step(&mut self, stage: &StageState, at: Position, delta: u32) -> (outcome:
        JumpOutcome)
        requires
            old(self).wf(),
            stage.wf(),
            at.in_world(),
        ensures
            final(self).wf(),
            *final(self) == old(self).after_jump_step(stage, at, delta as int),
            outcome == old(self).jump_outcome(stage),
    {
        match self.state {
            PlayerState::Idle => JumpOutcome { position: None, sound: None },
            PlayerState::Landing { .. } => JumpOutcome { position: None, sound: None },
            PlayerState::Jumping { progress, x1, y1, x2, y2, z } => {
                proof {
                    lemma_arc_bounds(progress as int);
                }
                let position = Position {
                    x: lerp(progress, x1, x2),
                    y: lerp(progress, y1, y2) + jump_height(progress),
                    z,
                };
                assert(0 <= delta * self.jump_speed <= 0xffff_ffff * 0xffff_ffff)
                    by (nonlinear_arith)
                    requires
                        0 <= delta <= 0xffff_ffff,
                        0 <= self.jump_speed <= 0xffff_ffff,
                ;
                let next: u64 = progress as u64 + (delta as u64 * self.jump_speed as u64) / 1000;
                if next > FULL_PROGRESS as u64 {
                    self.state = PlayerState::Landing { ttl: LANDING_TIME };
                } else {
                    self.state = PlayerState::Jumping { progress: next as u32, x1, y1, x2, y2, z };
                }
                JumpOutcome { position: Some(position), sound: None }
            },
            PlayerState::Moving { jump_impulse, tx, ty } => {
                if !(self.on_edge && jump_impulse > JUMP_TRIGGER) {
                    return JumpOutcome { position: None, sound: None };
                }
                let current = match self.platform {
                    Some(id) => if id < stage.platforms.platforms.len() {
                        stage.platforms.platforms[id]
                    } else {
                        return JumpOutcome { position: None, sound: None };
                    },
                    None => {
                        return JumpOutcome { position: None, sound: None };
                    },
                };
                match stage.target_platform(current, tx, ty) {
                    Some(target) => {
                        let end = stage.platforms.platforms[target].anchor();
                        let z = if at.z <= end.z {
                            at.z + HOVER
                        } else {
                            end.z + HOVER
                        };
                        self.state = PlayerState::Jumping {
                            progress: 0,
                            x1: at.x,
                            y1: at.y,
                            x2: end.x,
                            y2: end.y,
                            z,
                        };
                        self.platform = Some(target);
                        JumpOutcome { position: None, sound: Some(Sound::Jump) }
                    },
                    None => JumpOutcome { position: None, sound: None },
                }
            },
        }
    }
}

/// Over the course of a jump the arc stays between the ground and the peak.
pub proof fn lemma_arc_bounds(progress: int)
    requires
        0 <= progress <= FULL_PROGRESS,
    ensures
        0 <= arc_height(progress) <= JUMP_PEAK,
{
    let off_peak = progress - 500_000;
    assert(0 <= off_peak * off_peak <= 500_000 * 500_000) by (nonlinear_arith)
        requires
            -500_000 <= off_peak <= 500_000,
    ;
}

/// The arc is as high before the peak as it is as long after it.
pub proof fn lemma_arc_symmetric(progress: int)
    requires
        0 <= progress <= FULL_PROGRESS,
    ensures
        arc_height(progress) == arc_height(FULL_PROGRESS - progress),
{
    let off_peak = progress - 500_000;
    assert(off_peak * off_peak == (-off_peak) * (-off_peak)) by (nonlinear_arith);
}

/// The arc touches the ground at take-off and touch-down and reaches its
/// peak at mid-jump.
pub proof fn lemma_arc_ends_and_peak()
    ensures
        arc_height(0) == 0,
        arc_height(500_000) == JUMP_PEAK,
        arc_height(FULL_PROGRESS as int) == 0,
{
    assert((0 - 500_000) * (0 - 500_000) == 250_000_000_000int) by (nonlinear_arith);
    assert((1_000_000 - 500_000) * (1_000_000 - 500_000) == 250_000_000_000int)
        by (nonlinear_arith);
}

/// A player that is struck down lies dying so long, in microseconds.
pub const DYING_TIME: u64 = 300_000;

/// How a player fares when the song is lost: struck down, it lies dying for
/// a while and then waits off stage for the session to start over.
#[derive(Debug, Clone, Copy, PartialEq, Eq, Structural)]
pub enum Downfall {
    Standing,
    /// `ttd` is how long the dying still lasts.
    Dying { ttd: u64 },
    Waiting,
}

impl Downfall {
    /// Where a waiting player is kept, off stage.
    pub open spec fn off_stage() -> Position {
        Position { x: 0, y: -24_000i64, z: 100_000 }
    }

    /// The downfall a frame of `delta` microseconds on: dying counts down
    /// and ends in waiting; standing and waiting last.
    pub open spec fn after(self, delta: int) -> Downfall {
        match self {
            Downfall::Dying { ttd } => if ttd < delta {
                Downfall::Waiting
            } else {
                Downfall::Dying { ttd: (ttd - delta) as u64 }
            },
            _ => self,
        }
    }

    /// Where a waiting player is kept, off stage.
    pub fn waiting_place() -> (at: Position)
        ensures
            at == Downfall::off_stage(),
    {
        Position { x: 0, y: -24_000, z: 100_000 }
    }

    /// The downfall of a player struck down just now.
    pub fn strike_down() -> (downfall: Downfall)
        ensures
            downfall == (Downfall::Dying { ttd: DYING_TIME }),
    {
        Downfall::Dying { ttd: DYING_TIME }
    }

    /// Whether the player waits for the session to start over.
    pub fn is_waiting(&self) -> (waiting: bool)
        ensures
            waiting == (self is Waiting),
    {
        match self {
            Downfall::Waiting => true,
            _ => false,
        }
    }

    /// Lets a frame of `delta` microseconds pass, and says whether the
    /// player has gone to wait in it.
    pub fn step(&mut self, delta: u32) -> (gone: bool)
        ensures
            *final(self) == old(self).after(delta as int),
            gone == (*old(self) is Dying && *final(self) is Waiting),
    {
        match *self {
            Downfall::Dying { ttd } => {
                if ttd < delta as u64 {
                    *self = Downfall::Waiting;
                    true
                } else {
                    *self = Downfall::Dying { ttd: ttd - delta as u64 };
                    false
                }
            },
            _ => false,
        }
    }
}

} // verus!
