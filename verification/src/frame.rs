//! One frame of the player, its parts in the order in which they depend on
//! each other: the player walks, then the tether holds it, then it may jump.

use crate::effects::Sound;
use crate::grid::Position;
use crate::player::{
    progressed, Motion, Player, PlayerState, FULL_PROGRESS, LANDING_TIME, WORLD_LIMIT,
};
use crate::stage::StageState;
use vstd::prelude::*;

verus! {

/// What a frame asks for.
#[derive(Debug, Clone, Copy, PartialEq, Eq, Structural)]
pub struct FrameOutcome {
    /// Where the player is after the frame.
    pub position: Position,
    /// The sound to play, if any.
    pub sound: Option<Sound>,
}

/// `coordinate`, held within the limits of the world.
pub open spec fn within_world(coordinate: int) -> int {
    if coordinate > WORLD_LIMIT {
        WORLD_LIMIT as int
    } else if coordinate < -WORLD_LIMIT {
        -WORLD_LIMIT as int
    } else {
        coordinate
    }
}

/// `coordinate`, held within the limits of the world.
fn hold_within_world(coordinate: i128) -> (held: i64)
    ensures
        held == within_world(coordinate as int),
{
    if coordinate > WORLD_LIMIT as i128 {
        WORLD_LIMIT
    } else if coordinate < -(WORLD_LIMIT as i128) {
        -WORLD_LIMIT
    } else {
        coordinate as i64
    }
}

impl Position {
    /// The point moved by `by`, as far as the world reaches. The depth is
    /// left alone.
    pub open spec fn moved(self, by: Motion) -> Position {
        Position {
            x: within_world(self.x + by.dx) as i64,
            y: within_world(self.y + by.dy) as i64,
            z: self.z,
        }
    }

    /// The point moved by `by`, as far as the world reaches.
    pub fn step(&self, by: Motion) -> (to: Position)
        ensures
            to == self.moved(by),
            self.in_world() ==> to.in_world(),
    {
        Position {
            x: hold_within_world(self.x as i128 + by.dx as i128),
            y: hold_within_world(self.y as i128 + by.dy as i128),
            z: self.z,
        }
    }
}

impl Player {
    /// Where a frame of `delta` microseconds takes a player from `at` on the
    /// ground: as far as it walks, and the tether lets it.
    pub open spec fn walked_to(
        self,
        stage: &StageState,
        at: Position,
        x_tilt: Option<i32>,
        y_tilt: Option<i32>,
        delta: int,
    ) -> Position {
        let by = if x_tilt is Some && y_tilt is Some {
            self.motion(x_tilt->0 as int, y_tilt->0 as int, delta)
        } else {
            Motion { dx: 0, dy: 0 }
        };
        self.held_in(stage, at.moved(by))
    }

    /// The player after it has walked and been tethered, before it may jump.
    pub open spec fn after_walk(
        self,
        stage: &StageState,
        at: Position,
        x_tilt: Option<i32>,
        y_tilt: Option<i32>,
        delta: int,
    ) -> Player {
        let by = if x_tilt is Some && y_tilt is Some {
            self.motion(x_tilt->0 as int, y_tilt->0 as int, delta)
        } else {
            Motion { dx: 0, dy: 0 }
        };
        let stepped = if x_tilt is Some && y_tilt is Some {
            Player {
                state: self.state.after_movement(x_tilt->0 as int, y_tilt->0 as int, delta),
                ..self
            }
        } else {
            self
        };
        stepped.after_tether(stage, at.moved(by))
    }

    /// Takes the player, which is at `at`, through a frame of `delta`
    /// microseconds with the axes at `x_tilt` and `y_tilt`.
    ///
    /// The input is taken first, then the tether is applied to where the
    /// player has walked, and only then is a jump tried or carried on: so a
    /// player is placed and tethered before its jump is looked at.
    pub fn frame(
        &mut self,
        stage: &StageState,
        at: Position,
        x_tilt: Option<i32>,
        y_tilt: Option<i32>,
        delta: u32,
    ) -> (outcome: FrameOutcome)
        requires
            old(self).wf(),
            stage.wf(),
            at.in_world(),
        ensures
            final(self).wf(),
            *final(self) == old(self).after_walk(
                stage,
                at,
                x_tilt,
                y_tilt,
                delta as int,
            ).after_jump_step(
                stage,
                old(self).walked_to(stage, at, x_tilt, y_tilt, delta as int),
                delta as int,
            ),
            outcome.sound == old(self).after_walk(
                stage,
                at,
                x_tilt,
                y_tilt,
                delta as int,
            ).jump_outcome(stage).sound,
            outcome.position == (match old(self).after_walk(
                stage,
                at,
                x_tilt,
                y_tilt,
                delta as int,
            ).jump_outcome(stage).position {
                Some(position) => position,
                None => old(self).walked_to(stage, at, x_tilt, y_tilt, delta as int),
            }),
    {
        let by = self.movement_step(x_tilt, y_tilt, delta);
        let walked = at.step(by);
        let held = self.tether(stage, walked);
        let jump = self.jump_step(stage, held, delta);
        FrameOutcome {
            position: match jump.position {
                Some(position) => position,
                None => held,
            },
            sound: jump.sound,
        }
    }
}

/// No jump can be had on the diagonal: a frame in which a walking player
/// tilts both axes leaves it moving with no time held, on the platform it
/// was on, and no jump is heard, however long the frame and whatever was
/// held before.
pub proof fn lemma_no_jump_on_the_diagonal(
    player: Player,
    stage: &StageState,
    at: Position,
    x_tilt: i32,
    y_tilt: i32,
    delta: int,
)
    requires
        player.state.walks(),
        x_tilt != 0,
        y_tilt != 0,
    ensures
        ({
            let walked = player.after_walk(stage, at, Some(x_tilt), Some(y_tilt), delta);
            let after = walked.after_jump_step(
                stage,
                player.walked_to(stage, at, Some(x_tilt), Some(y_tilt), delta),
                delta,
            );
            &&& after.state == (PlayerState::Moving { jump_impulse: 0, tx: x_tilt, ty: y_tilt })
            &&& after.platform == player.platform
            &&& walked.jump_target(stage) is None
            &&& walked.jump_outcome(stage).sound is None
            &&& walked.jump_outcome(stage).position is None
        }),
{
}

/// A jump runs to its end: whatever the input, a frame leaves a jumping
/// player jumping between the same two points and no less far along, until
/// the jump has run past its full length, and then it lands.
pub proof fn lemma_jump_runs_to_its_end(
    player: Player,
    stage: &StageState,
    at: Position,
    x_tilt: Option<i32>,
    y_tilt: Option<i32>,
    delta: int,
)
    requires
        player.state is Jumping,
        delta >= 0,
    ensures
        ({
            let before = player.state;
            let next = progressed(before->progress as int, player.jump_speed as int, delta);
            let after = player.after_walk(stage, at, x_tilt, y_tilt, delta).after_jump_step(
                stage,
                player.walked_to(stage, at, x_tilt, y_tilt, delta),
                delta,
            ).state;
            if next > FULL_PROGRESS {
                after == (PlayerState::Landing { ttl: LANDING_TIME })
            } else {
                &&& after is Jumping
                &&& after->progress == next
                &&& after->progress >= before->progress
                &&& after->x1 == before->x1 && after->y1 == before->y1
                &&& after->x2 == before->x2 && after->y2 == before->y2
                &&& after->z == before->z
            }
        }),
{
    assert(delta * player.jump_speed >= 0) by (nonlinear_arith)
        requires
            delta >= 0,
            player.jump_speed >= 0,
    ;
}

} // verus!
