use vstd::prelude::*;
use crate::game::bombs::bomb_events::BombExploded;
use crate::game::monsters::monster_events::MonsterStateChanged;
use crate::game::monsters::monster_state::MonsterState;

verus! {

/// The sounds monsters make.
#[derive(Debug, Clone, Copy, PartialEq, Eq, Structural)]
pub enum MonsterSound {
    BattleCry,
    DeathCry,
}

/// The cries of a frame: only the first state change and the first explosion
/// of the frame are listened to. A battle cry when that change starts a chase,
/// a death cry when that explosion killed a monster.
pub open spec fn monster_cries(
    state_changes: Seq<MonsterStateChanged>,
    explosions: Seq<BombExploded>,
) -> Seq<MonsterSound> {
    let battle_cry = if state_changes.len() > 0 && state_changes[0].next_state is Chasing {
        seq![MonsterSound::BattleCry]
    } else {
        Seq::empty()
    };
    let death_cry = if explosions.len() > 0 && explosions[0].monster_hit_count > 0 {
        seq![MonsterSound::DeathCry]
    } else {
        Seq::empty()
    };
    battle_cry + death_cry
}

/// Lets monsters be heard.
pub struct MonsterAudioPlugin;

impl MonsterAudioPlugin {
    /// The monster sounds to play this frame; see `monster_cries`.
    pub fn sound_monster_sounds(
        state_changes: &Vec<MonsterStateChanged>,
        explosions: &Vec<BombExploded>,
    ) -> (sounds: Vec<MonsterSound>)
        ensures
            sounds@ == monster_cries(state_changes@, explosions@),
    {
        let mut sounds: Vec<MonsterSound> = Vec::new();
        if state_changes.len() > 0 {
            if let MonsterState::Chasing(_) = state_changes[0].next_state {
                sounds.push(MonsterSound::BattleCry);
            }
        }
        if explosions.len() > 0 {
            if explosions[0].monster_hit_count > 0 {
                sounds.push(MonsterSound::DeathCry);
            }
        }
        assert(sounds@ =~= monster_cries(state_changes@, explosions@));
        sounds
    }
}


/// Monsters cry at most twice a frame, and only the first state change and the
/// first explosion of the frame are listened to: a battle cry, first, when
/// that change sets the monster chasing, whatever it did before; a death cry
/// when that explosion killed some monster.
pub proof fn lemma_monster_cries(state_changes: Seq<MonsterStateChanged>, explosions: Seq<BombExploded>)
    ensures
        monster_cries(state_changes, explosions) == monster_cries(
            state_changes.take(if state_changes.len() > 0 { 1 } else { 0 }),
            explosions.take(if explosions.len() > 0 { 1 } else { 0 }),
        ),
        monster_cries(state_changes, explosions).len() <= 2,
        monster_cries(state_changes, explosions).contains(MonsterSound::BattleCry) <==> (
        state_changes.len() > 0 && state_changes[0].next_state is Chasing),
        monster_cries(state_changes, explosions).contains(MonsterSound::DeathCry) <==> (
        explosions.len() > 0 && explosions[0].monster_hit_count > 0),
        state_changes.len() > 0 && state_changes[0].next_state is Chasing ==> monster_cries(
            state_changes,
            explosions,
        )[0] == MonsterSound::BattleCry,
{
    let first_changes = state_changes.take(if state_changes.len() > 0 { 1 } else { 0 });
    let first_explosions = explosions.take(if explosions.len() > 0 { 1 } else { 0 });
    if state_changes.len() > 0 {
        assert(first_changes[0] == state_changes[0]);
    }
    if explosions.len() > 0 {
        assert(first_explosions[0] == explosions[0]);
    }
    assert(monster_cries(state_changes, explosions) =~= monster_cries(first_changes, first_explosions));
    let cries = monster_cries(state_changes, explosions);
    if state_changes.len() > 0 && state_changes[0].next_state is Chasing {
        assert(cries[0] == MonsterSound::BattleCry);
    }
    if explosions.len() > 0 && explosions[0].monster_hit_count > 0 {
        assert(cries[cries.len() - 1] == MonsterSound::DeathCry);
    }
}

} // verus!
