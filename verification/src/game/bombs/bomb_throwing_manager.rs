use vstd::prelude::*;
use crate::game::bombs::bomb_event_channel::BombRequest;
use crate::timers::TimeScaleRequest;

verus! {

/// Slows time down while a bomb is in the player's hands.
pub struct BombThrowingManagerPlugin;

impl BombThrowingManagerPlugin {
    /// Picking a bomb up slows time down; releasing it brings time back to
    /// normal speed.
    pub fn time_scale_on(request: BombRequest) -> (r: TimeScaleRequest)
        ensures
            r == match request {
                BombRequest::PickUp => TimeScaleRequest::SlowMotion,
                BombRequest::Release => TimeScaleRequest::NormalSpeed,
            },
    {
        match request {
            BombRequest::PickUp => TimeScaleRequest::SlowMotion,
            BombRequest::Release => TimeScaleRequest::NormalSpeed,
        }
    }
}

} // verus!
