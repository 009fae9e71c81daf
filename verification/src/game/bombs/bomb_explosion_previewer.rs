use vstd::prelude::*;
use crate::entity::EntityId;
use crate::float_bits::F32Bits;
use crate::game::player::Player;

verus! {

/// A collider the swept bomb circle may meet, with the distance along the
/// throw at which it does.
#[derive(Debug, Clone, Copy, PartialEq, Eq, Structural)]
pub struct CastHit {
    pub entity: EntityId,
    pub intersection_distance: Option<F32Bits>,
}

/// The hit `i` counts: not the held bomb itself, and met along the throw.
pub open spec fn counted_hit(hits: Seq<CastHit>, held_bomb: EntityId, i: int) -> bool {
    hits[i].entity != held_bomb && hits[i].intersection_distance is Some
}

pub open spec fn hit_distance(hits: Seq<CastHit>, i: int) -> F32Bits {
    hits[i].intersection_distance->0
}

/// `i` is the first counted hit met before `max_distance` at the least distance.
pub open spec fn is_closest_hit(hits: Seq<CastHit>, held_bomb: EntityId, max_distance: F32Bits, i: int) -> bool {
    &&& 0 <= i < hits.len()
    &&& counted_hit(hits, held_bomb, i)
    &&& hit_distance(hits, i).less_than(max_distance)
    &&& forall|j: int|
        0 <= j < hits.len() && counted_hit(hits, held_bomb, j) && hit_distance(hits, j).less_than(
            max_distance,
        ) ==> {
            &&& hit_distance(hits, i).ordinal() <= hit_distance(hits, j).ordinal()
            &&& j < i ==> hit_distance(hits, i).ordinal() < hit_distance(hits, j).ordinal()
        }
}

/// What the explosion preview light does after the players changed.
#[derive(Debug, Clone, Copy, PartialEq, Eq, Structural)]
pub enum PreviewToggle {
    /// No player changed: the preview stays as it is.
    Unchanged,
    /// The changed player at `player_index` holds `held_bomb`: the preview is
    /// lit and follows that throw.
    Show { player_index: usize, held_bomb: EntityId },
    /// No changed player holds a bomb: the preview goes dark.
    Hide,
}

/// Shows where a held bomb would go off if thrown.
pub struct BombExplosionPreviewerPlugin;

impl BombExplosionPreviewerPlugin {
    /// The distance along the throw at which the held bomb would first meet
    /// another collider, given the throw reaches `max_distance`: none when no
    /// collider is met before that (but a NaN `max_distance` comes back as it
    /// is, since NaN differs from itself).
    pub fn closest_collision(held_bomb: EntityId, max_distance: F32Bits, hits: &Vec<CastHit>) -> (r:
        Option<F32Bits>)
        ensures
            max_distance.nan() ==> r == Some(max_distance),
            !max_distance.nan() ==> (r is None <==> forall|j: int|
                0 <= j < hits.len() && counted_hit(hits@, held_bomb, j) ==> !hit_distance(
                    hits@,
                    j,
                ).less_than(max_distance)),
            !max_distance.nan() ==> (r matches Some(d) ==> exists|i: int|
                is_closest_hit(hits@, held_bomb, max_distance, i) && hit_distance(hits@, i) == d),
    {
        let mut min_distance = max_distance;
        let mut found: Option<usize> = None;
        let mut k: usize = 0;
        while k < hits.len()
            invariant
                k <= hits.len(),
                found is None ==> min_distance == max_distance,
                found is None ==> forall|j: int|
                    0 <= j < k && counted_hit(hits@, held_bomb, j) ==> !hit_distance(
                        hits@,
                        j,
                    ).less_than(max_distance),
                found matches Some(i) ==> {
                    &&& i < k
                    &&& counted_hit(hits@, held_bomb, i as int)
                    &&& min_distance == hit_distance(hits@, i as int)
                    &&& min_distance.less_than(max_distance)
                    &&& forall|j: int|
                        0 <= j < k && counted_hit(hits@, held_bomb, j) && hit_distance(
                            hits@,
                            j,
                        ).less_than(max_distance) ==> {
                            &&& min_distance.ordinal() <= hit_distance(hits@, j).ordinal()
                            &&& j < i ==> min_distance.ordinal() < hit_distance(hits@, j).ordinal()
                        }
                },
            decreases hits.len() - k,
        {
            let hit = hits[k];
            if hit.entity != held_bomb {
                if let Some(intersection_distance) = hit.intersection_distance {
                    if intersection_distance.lt(&min_distance) {
                        min_distance = intersection_distance;
                        found = Some(k);
                    }
                }
            }
            k = k + 1;
        }
        if !min_distance.eq_value(&max_distance) {
            proof {
                if !max_distance.nan() {
                    assert(found is Some);
                }
            }
            Some(min_distance)
        } else {
            None
        }
    }

    /// How the preview reacts to the players that changed this frame: it
    /// follows the first of them that holds a bomb, goes dark when none does,
    /// and is left alone when no player changed.
    pub fn toggle_bomb_explosion_preview(changed_players: &Vec<Player>) -> (r: PreviewToggle)
        ensures
            changed_players.len() == 0 ==> r == PreviewToggle::Unchanged,
            changed_players.len() > 0 ==> match r {
                PreviewToggle::Unchanged => false,
                PreviewToggle::Show { player_index, held_bomb } => {
                    &&& player_index < changed_players.len()
                    &&& changed_players@[player_index as int].held_bomb == Some(held_bomb)
                    &&& forall|j: int|
                        0 <= j < player_index ==> changed_players@[j].held_bomb is None
                },
                PreviewToggle::Hide => forall|j: int|
                    0 <= j < changed_players.len() ==> changed_players@[j].held_bomb is None,
            },
    {
        if changed_players.len() == 0 {
            return PreviewToggle::Unchanged;
        }
        let mut k: usize = 0;
        while k < changed_players.len()
            invariant
                k <= changed_players.len(),
                forall|j: int| 0 <= j < k ==> changed_players@[j].held_bomb is None,
            decreases changed_players.len() - k,
        {
            if let Some(held_bomb) = changed_players[k].held_bomb {
                return PreviewToggle::Show { player_index: k, held_bomb };
            }
            k = k + 1;
        }
        PreviewToggle::Hide
    }
}


/// The preview stops at a collider other than the held bomb, one the throw
/// actually meets, strictly before the throw's reach; no such collider is met
/// nearer, and of equally near ones the first listed counts.
pub proof fn lemma_preview_stops_at_the_nearest_collider(
    hits: Seq<CastHit>,
    held_bomb: EntityId,
    max_distance: F32Bits,
    i: int,
    j: int,
)
    requires
        is_closest_hit(hits, held_bomb, max_distance, i),
        0 <= j < hits.len(),
        hits[j].entity != held_bomb,
        hits[j].intersection_distance matches Some(d) && d.less_than(max_distance),
    ensures
        hits[i].entity != held_bomb,
        hits[i].intersection_distance matches Some(d) && d.less_than(max_distance) && d.ordinal()
            <= hits[j].intersection_distance->0.ordinal() && (j < i ==> d.ordinal()
            < hits[j].intersection_distance->0.ordinal()),
{
    assert(counted_hit(hits, held_bomb, j));
    assert(hit_distance(hits, j) == hits[j].intersection_distance->0);
}

} // verus!
