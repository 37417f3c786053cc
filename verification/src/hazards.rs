//! Hazards that spring to life on the stage.

use crate::effects::{AnimationId, AnimationRequest, EndControl};
use vstd::prelude::*;

verus! {

/// The kinds of hazard.
#[derive(Debug, Clone, Copy, PartialEq, Eq, Structural)]
pub enum HazardType {
    Spikes,
    Laser,
}

/// A hazard, and whether it has sprung yet.
#[derive(Debug, Clone, Copy, PartialEq, Eq, Structural)]
pub struct Hazard {
    pub hazard_type: HazardType,
    pub activated: bool,
}

/// The start of a hazard's animation, and the rate at which it is to run, in
/// thousandths of its natural speed.
#[derive(Debug, Clone, Copy, PartialEq, Eq, Structural)]
pub struct Activation {
    pub animation: AnimationRequest,
    pub rate: u32,
}

impl Hazard {
    /// A hazard of the given kind that has not sprung yet.
    pub fn new(hazard_type: HazardType) -> (hazard: Hazard)
        ensures
            hazard == (Hazard { hazard_type, activated: false }),
    {
        Hazard { hazard_type, activated: false }
    }

    /// The rate at which the hazard springs, in thousandths of the natural
    /// speed of its animation: four times as fast, whatever its kind.
    pub fn activation_speed(&self) -> (rate: u32)
        ensures
            rate == 4_000,
    {
        match self.hazard_type {
            HazardType::Spikes => 4_000,
            HazardType::Laser => 4_000,
        }
    }

    /// Springs the hazard, if it has not sprung before, and says what is to
    /// be shown: its move animation, held at the end, at its own rate.
    pub fn activate(&mut self) -> (shown: Option<Activation>)
        ensures
            final(self).hazard_type == old(self).hazard_type,
            final(self).activated,
            shown == (if old(self).activated {
                None
            } else {
                Some(
                    Activation {
                        animation: AnimationRequest {
                            id: AnimationId::Move,
                            end: EndControl::Stay,
                        },
                        rate: 4_000,
                    },
                )
            }),
    {
        if self.activated {
            None
        } else {
            self.activated = true;
            Some(
                Activation {
                    animation: AnimationRequest { id: AnimationId::Move, end: EndControl::Stay },
                    rate: self.activation_speed(),
                },
            )
        }
    }
}

} // verus!
