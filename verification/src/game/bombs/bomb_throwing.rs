use vstd::prelude::*;
use crate::entity::EntityId;
use crate::game::player::Player;
use crate::timers::TimeScaleRequest;

verus! {

/// What a throw request does.
#[derive(Debug, Clone, Copy, PartialEq, Eq, Structural)]
pub struct BombThrow {
    /// The bomb that leaves the player's hands, if one was held.
    pub thrown_bomb: Option<EntityId>,
    /// Letting go of a bomb brings time back to normal speed.
    pub time_scale: Option<TimeScaleRequest>,
}

/// What letting go does for a player in `player`'s hands.
pub open spec fn release_outcome(player: Player) -> BombThrow {
    match player.held_bomb {
        Some(bomb_entity) => BombThrow {
            thrown_bomb: Some(bomb_entity),
            time_scale: Some(TimeScaleRequest::NormalSpeed),
        },
        None => BombThrow { thrown_bomb: None, time_scale: None },
    }
}

/// Lets the player throw the bomb it holds.
pub struct BombThrowingPlugin;

impl BombThrowingPlugin {
    /// The player lets go of its bomb, if it holds one: the bomb is thrown
    /// and time goes back to normal. A player with empty hands does nothing.
    pub fn release_held_bomb(player: &mut Player) -> (r: BombThrow)
        ensures
            final(player).held_bomb is None,
            r == release_outcome(*old(player)),
    {
        match player.held_bomb.take() {
            Some(bomb_entity) => BombThrow {
                thrown_bomb: Some(bomb_entity),
                time_scale: Some(TimeScaleRequest::NormalSpeed),
            },
            None => BombThrow { thrown_bomb: None, time_scale: None },
        }
    }
}

/// Time is slow only while a bomb is held: picking a bomb up slows time down
/// and makes it the held bomb, and letting go then throws that very bomb and
/// brings time back to normal speed.
pub proof fn lemma_throw_after_pick_up(bomb_entity: EntityId)
    ensures
        release_outcome(Player { held_bomb: Some(bomb_entity) }) == (BombThrow {
            thrown_bomb: Some(bomb_entity),
            time_scale: Some(TimeScaleRequest::NormalSpeed),
        }),
        release_outcome(Player { held_bomb: None }).time_scale is None,
{
}


/// Letting go throws exactly the bomb the player held and brings time back to
/// normal speed; with empty hands nothing is thrown and time is left alone.
pub proof fn lemma_release_throws_the_held_bomb(player: Player)
    ensures
        release_outcome(player).thrown_bomb == player.held_bomb,
        release_outcome(player).time_scale is Some <==> player.held_bomb is Some,
        release_outcome(player).time_scale is Some ==> release_outcome(player).time_scale
            == Some(TimeScaleRequest::NormalSpeed),
{
}

} // verus!
