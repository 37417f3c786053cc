//! What falls on a platform when its note is due: a ball, and the shadow
//! that the ball casts ahead of itself.

use crate::clock::{count_down, counted_down};
use crate::grid::{Platform, PlatformId, Position};
use vstd::prelude::*;

verus! {

/// A ball is let go so far above its platform.
pub const DROP_HEIGHT: i64 = 100_000;

/// What is set down on a platform is drawn so far in front of it.
pub const LIFT: i64 = 10;

/// A ball lives so long, in microseconds.
pub const BALL_LIFE: i64 = 1_200_000;

/// A ball lands after so long, in microseconds.
pub const BALL_FLIGHT: i64 = 1_000_000;

/// A ball falls so fast, in thousandths of a world unit per second.
pub const BALL_SPEED: u32 = 100_000;

/// A shadow lives so long, in microseconds.
pub const SHADOW_LIFE: i64 = 1_000_000;

/// A ball on its way down to a platform.
#[derive(Debug, Clone, Copy, PartialEq, Eq, Structural)]
pub struct Ball {
    /// Microseconds until the ball is gone.
    pub ttl: i64,
    /// Microseconds until the ball lands.
    pub ttd: i64,
    pub drop_speed: u32,
    /// Whether the landing has been answered.
    pub hit: bool,
    pub platform: PlatformId,
}

/// What a frame does to something that falls or fades.
#[derive(Debug, Clone, Copy, PartialEq, Eq, Structural)]
pub struct FallStep {
    /// How far to lower it, in thousandths of a world unit.
    pub descent: i64,
    /// Whether its time is up and it is to be removed.
    pub gone: bool,
}

/// How far a ball at `speed` falls in `delta` microseconds.
pub open spec fn fallen(speed: int, delta: int) -> int {
    (speed * delta) / 1_000_000
}

impl Platform {
    /// The point on the platform at which things are set down.
    pub open spec fn top_of(self) -> Position {
        Position { z: (self.anchor_of().z + LIFT) as i64, ..self.anchor_of() }
    }

    /// The point above the platform from which a ball is let go.
    pub open spec fn drop_point_of(self) -> Position {
        Position { y: (self.anchor_of().y + DROP_HEIGHT) as i64, ..self.top_of() }
    }

    /// The point on the platform at which things are set down.
    pub fn top(&self) -> (at: Position)
        ensures
            at == self.top_of(),
    {
        let anchor = self.anchor();
        Position { x: anchor.x, y: anchor.y, z: anchor.z + LIFT }
    }

    /// The point above the platform from which a ball is let go.
    pub fn drop_point(&self) -> (at: Position)
        ensures
            at == self.drop_point_of(),
    {
        let anchor = self.anchor();
        Position { x: anchor.x, y: anchor.y + DROP_HEIGHT, z: anchor.z + LIFT }
    }
}

impl Ball {
    /// A ball let go above `platform`.
    pub fn new(platform: PlatformId) -> (ball: Ball)
        ensures
            ball == (Ball {
                ttl: BALL_LIFE,
                ttd: BALL_FLIGHT,
                drop_speed: BALL_SPEED,
                hit: false,
                platform,
            }),
    {
        Ball { ttl: BALL_LIFE, ttd: BALL_FLIGHT, drop_speed: BALL_SPEED, hit: false, platform }
    }

    /// The ball after a frame of `delta` microseconds.
    pub open spec fn after_fall(self, delta: int) -> Ball {
        Ball {
            ttl: counted_down(self.ttl as int, delta) as i64,
            ttd: counted_down(self.ttd as int, delta) as i64,
            ..self
        }
    }

    /// Lets the ball fall for a frame of `delta` microseconds. It sinks until
    /// it has landed, and is gone once its life has run out.
    pub fn fall(&mut self, delta: u32) -> (step: FallStep)
        ensures
            *final(self) == old(self).after_fall(delta as int),
            step.descent == (if old(self).ttd > 0 {
                fallen(old(self).drop_speed as int, delta as int)
            } else {
                0
            }),
            step.gone == (final(self).ttl < 0),
    {
        let descent: i64 = if self.ttd > 0 {
            assert(0 <= self.drop_speed * delta <= 0xffff_ffff * 0xffff_ffff) by (nonlinear_arith)
                requires
                    0 <= self.drop_speed <= 0xffff_ffff,
                    0 <= delta <= 0xffff_ffff,
            ;
            ((self.drop_speed as u64 * delta as u64) / 1_000_000) as i64
        } else {
            0
        };
        self.ttd = count_down(self.ttd, delta);
        self.ttl = count_down(self.ttl, delta);
        FallStep { descent, gone: self.ttl < 0 }
    }

    /// Whether the ball lands on `platform` now: it is bound for it, its
    /// flight is over, and its landing has not been answered before.
    pub open spec fn lands_on(self, platform: PlatformId) -> bool {
        self.platform == platform && !self.hit && self.ttd <= 0
    }

    /// Answers whether the ball lands on `platform` now, and if so, marks the
    /// landing as answered, so that it is answered once only.
    pub fn strike(&mut self, platform: PlatformId) -> (landed: bool)
        ensures
            landed == old(self).lands_on(platform),
            *final(self) == (Ball { hit: old(self).hit || landed, ..*old(self) }),
            !final(self).lands_on(platform),
    {
        if self.platform == platform && !self.hit && self.ttd <= 0 {
            self.hit = true;
            true
        } else {
            false
        }
    }
}

/// The shadow that a falling ball casts on its platform.
#[derive(Debug, Clone, Copy, PartialEq, Eq, Structural)]
pub struct Shadow {
    /// Microseconds until the shadow is gone.
    pub ttl: i64,
}

impl Default for Shadow {
    fn default() -> (shadow: Self)
        ensures
            shadow == (Shadow { ttl: SHADOW_LIFE }),
    {
        Shadow { ttl: SHADOW_LIFE }
    }
}

impl Shadow {
    /// Lets a frame of `delta` microseconds pass, and says whether the
    /// shadow is gone.
    pub fn fade(&mut self, delta: u32) -> (gone: bool)
        ensures
            final(self).ttl == counted_down(old(self).ttl as int, delta as int),
            gone == (final(self).ttl < 0),
    {
        self.ttl = count_down(self.ttl, delta);
        self.ttl < 0
    }
}

} // verus!
