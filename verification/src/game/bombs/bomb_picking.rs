use vstd::prelude::*;
use crate::entity::EntityId;
use crate::float_bits::F32Bits;
use crate::game::bombs::bomb::Bomb;
use crate::game::bombs::bomb_state::BombState;
use crate::game::player::Player;
use crate::palette::PaletteColor;
use crate::selection::{first_least, is_least_choice};
use crate::timers::{
    TimeScaleRequest, TimerAffectedEntity, TimerDoneEventType, TimerDuration, TimerFireRequest,
};

verus! {

/// A bomb the player could reach for, with its distance from the player.
#[derive(Debug, Clone, Copy, PartialEq, Eq, Structural)]
pub struct BombDistance {
    pub bomb_entity: EntityId,
    pub bomb_distance: F32Bits,
}

/// `i` is the first of the bombs closer than `reach` at the least distance.
pub open spec fn is_closest_within(bombs: Seq<BombDistance>, reach: F32Bits, i: int) -> bool {
    &&& 0 <= i < bombs.len()
    &&& bombs[i].bomb_distance.less_than(reach)
    &&& forall|j: int|
        0 <= j < bombs.len() && bombs[j].bomb_distance.less_than(reach) ==> {
            &&& bombs[i].bomb_distance.ordinal() <= bombs[j].bomb_distance.ordinal()
            &&& j < i ==> bombs[i].bomb_distance.ordinal() < bombs[j].bomb_distance.ordinal()
        }
}

/// How long a picked bomb takes to reach the player's hands, as the bits of an
/// `f32` number of seconds (a tenth of a second).
pub const BOMB_PULL_TIME_BITS: u32 = 0x3DCC_CCCD;

/// What picking a bomb up sets off besides the new holder.
#[derive(Debug, Clone, PartialEq, Eq)]
pub struct BombPickUp {
    /// The colour the bomb is now drawn in, if its state has one.
    pub bomb_color: Option<PaletteColor>,
    /// The timer that pulls the bomb into the player's hands.
    pub pull_timer: TimerFireRequest,
    /// The countdown, at the end of which the bomb explodes.
    pub countdown_timer: TimerFireRequest,
    /// Picking a bomb up slows time down.
    pub time_scale: TimeScaleRequest,
}

/// Lets the player pick bombs up.
pub struct BombPickingPlugin;

impl BombPickingPlugin {
    /// The bomb a pick-up request takes: the first of the bombs closer than
    /// `reach` at the least distance, none when no bomb is that close.
    pub fn try_getting_closest_bomb(bombs: &Vec<BombDistance>, reach: F32Bits) -> (r: Option<
        EntityId,
    >)
        ensures
            r is None <==> forall|j: int|
                0 <= j < bombs.len() ==> !bombs@[j].bomb_distance.less_than(reach),
            r matches Some(e) ==> exists|i: int|
                is_closest_within(bombs@, reach, i) && bombs@[i].bomb_entity == e,
    {
        let mut distances: Vec<F32Bits> = Vec::new();
        let mut within: Vec<bool> = Vec::new();
        let mut k: usize = 0;
        while k < bombs.len()
            invariant
                k <= bombs.len(),
                distances.len() == k,
                within.len() == k,
                forall|j: int| 0 <= j < k ==> distances@[j] == bombs@[j].bomb_distance,
                forall|j: int|
                    0 <= j < k ==> within@[j] == bombs@[j].bomb_distance.less_than(reach),
            decreases bombs.len() - k,
        {
            distances.push(bombs[k].bomb_distance);
            within.push(bombs[k].bomb_distance.lt(&reach));
            k = k + 1;
        }
        let choice = first_least(&distances, &within);
        match choice {
            None => {
                assert forall|j: int| 0 <= j < bombs.len() implies !bombs@[j].bomb_distance.less_than(
                    reach,
                ) by {
                    assert(!within@[j]);
                }
                None
            },
            Some(i) => {
                assert(within@[i as int]);
                assert(!distances@[i as int].nan());
                assert forall|j: int|
                    0 <= j < bombs.len() && bombs@[j].bomb_distance.less_than(reach) implies {
                    &&& bombs@[i as int].bomb_distance.ordinal() <= bombs@[j].bomb_distance.ordinal()
                    &&& j < i ==> bombs@[i as int].bomb_distance.ordinal()
                        < bombs@[j].bomb_distance.ordinal()
                } by {
                    assert(within@[j]);
                    assert(!distances@[j].nan());
                }
                assert(is_closest_within(bombs@, reach, i as int));
                Some(bombs[i].bomb_entity)
            },
        }
    }

    /// The player takes hold of the bomb `bomb_entity`, of explosion radius
    /// `explosion_radius`: the bomb is held, it is the player's held bomb, it is
    /// pulled to the player (driven by `pull_calculator`), its countdown starts
    /// (driven by `countdown_calculator`, for its whole fuse, after which it
    /// explodes in its radius) and time slows down.
    pub fn make_player_hold_bomb(
        player: &mut Player,
        bomb_entity: EntityId,
        bomb: &mut Bomb,
        explosion_radius: F32Bits,
        pull_calculator: EntityId,
        countdown_calculator: EntityId,
    ) -> (r: BombPickUp)
        ensures
            *final(bomb) == (Bomb { state: BombState::Held, ..*old(bomb) }),
            final(player).held_bomb == Some(bomb_entity),
            r.bomb_color == (match final(bomb).colors() {
                Some(colors) => Some(colors.bomb),
                None => None,
            }),
            r.pull_timer.fires_once_on(
                TimerAffectedEntity {
                    affected_entity: bomb_entity,
                    value_calculator_entity: Some(pull_calculator),
                },
                TimerDuration::Seconds(F32Bits { bits: BOMB_PULL_TIME_BITS }),
                TimerDoneEventType::Nothing,
                None,
            ),
            r.countdown_timer.fires_once_on(
                TimerAffectedEntity {
                    affected_entity: bomb_entity,
                    value_calculator_entity: Some(countdown_calculator),
                },
                TimerDuration::WholeSeconds(old(bomb).full_duration),
                TimerDoneEventType::ExplodeInRadius(explosion_radius),
                None,
            ),
            r.time_scale == TimeScaleRequest::SlowMotion,
    {
        bomb.state = BombState::Held;
        let bomb_color = match bomb.to_colors() {
            Some(colors) => Some(colors.bomb),
            None => None,
        };
        player.held_bomb = Some(bomb_entity);
        let pull_timer = TimerFireRequest::for_single_entity(
            bomb_entity,
            Some(pull_calculator),
            TimerDuration::Seconds(F32Bits::from_bits(BOMB_PULL_TIME_BITS)),
            TimerDoneEventType::Nothing,
            None,
        );
        let countdown_timer = TimerFireRequest::for_single_entity(
            bomb_entity,
            Some(countdown_calculator),
            TimerDuration::WholeSeconds(bomb.full_duration),
            TimerDoneEventType::ExplodeInRadius(explosion_radius),
            None,
        );
        BombPickUp { bomb_color, pull_timer, countdown_timer, time_scale: TimeScaleRequest::SlowMotion }
    }
}


/// The bomb a pick-up takes lies strictly within reach (one exactly at the
/// reach is out of it), no bomb within reach is nearer, and of equally near
/// bombs the first listed is taken.
pub proof fn lemma_picked_bomb_is_nearest_within_reach(bombs: Seq<BombDistance>, reach: F32Bits, i: int, j: int)
    requires
        is_closest_within(bombs, reach, i),
        0 <= j < bombs.len(),
        bombs[j].bomb_distance.less_than(reach),
    ensures
        bombs[i].bomb_distance.less_than(reach),
        !bombs[i].bomb_distance.same_value(reach),
        bombs[i].bomb_distance.ordinal() <= bombs[j].bomb_distance.ordinal(),
        j < i ==> bombs[i].bomb_distance.ordinal() < bombs[j].bomb_distance.ordinal(),
{
    crate::float_bits::lemma_order_properties(bombs[i].bomb_distance, reach, reach);
}

} // verus!
