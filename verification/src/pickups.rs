//! Reward notes that lie on a platform for the player to collect.

use crate::clock::{count_down, counted_down};
use crate::grid::PlatformId;
use crate::music::Note;
use crate::stage::StageState;
use vstd::prelude::*;

verus! {

/// A reward offered on a platform lies there so long, in microseconds.
pub const PICKUP_LIFE: i64 = 5_000_000;

/// A note that lies on a platform.
#[derive(Debug, Clone, Copy, PartialEq, Eq, Structural)]
pub struct NotePickup {
    pub platform: PlatformId,
    pub value: Note,
    /// Microseconds until the note is gone.
    pub ttl: i64,
}

/// What a frame does to a pickup.
#[derive(Debug, Clone, Copy, PartialEq, Eq, Structural)]
pub struct PickupStep {
    /// The player has collected the note.
    pub collected: bool,
    /// The pickup is to be removed: it was collected, or its time is up.
    pub gone: bool,
}

impl NotePickup {
    /// A note `value` that lies on `platform` for `ttl` microseconds.
    pub fn new(platform: PlatformId, value: Note, ttl: i64) -> (pickup: NotePickup)
        ensures
            pickup == (NotePickup { platform, value, ttl }),
    {
        NotePickup { platform, value, ttl }
    }

    /// Whether a player that stands on `standing`, and is or is not
    /// `airborne`, reaches the note: it must be on the note's platform, on
    /// the ground.
    pub open spec fn reached(self, standing: Option<PlatformId>, airborne: bool) -> bool {
        standing == Some(self.platform) && !airborne
    }

    /// Lets a frame of `delta` microseconds pass over the pickup. A player
    /// that reaches the note collects it: it is added to the notes found.
    pub fn step(
        &mut self,
        stage: &mut StageState,
        standing: Option<PlatformId>,
        airborne: bool,
        delta: u32,
    ) -> (step: PickupStep)
        requires
            old(stage).wf(),
        ensures
            final(stage).wf(),
            step.collected == old(self).reached(standing, airborne),
            final(stage)@ == (if step.collected {
                old(stage)@.after_collect(old(self).value)
            } else {
                old(stage)@
            }),
            *final(self) == (NotePickup {
                ttl: counted_down(old(self).ttl as int, delta as int) as i64,
                ..*old(self)
            }),
            step.gone == (step.collected || final(self).ttl < 0),
    {
        let collected = match standing {
            Some(site) => site == self.platform && !airborne,
            None => false,
        };
        if collected {
            stage.collect(self.value);
        }
        self.ttl = count_down(self.ttl, delta);
        PickupStep { collected, gone: collected || self.ttl < 0 }
    }
}

} // verus!
