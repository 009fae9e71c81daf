use vstd::prelude::*;

verus! {

/// A debug switch that changes how the game behaves.
#[derive(Debug, Clone, Copy, PartialEq, Eq, Structural)]
pub enum FunctionalityOverride {
    AlwaysSpawnBombsInMiddle,
    AllBombsExplodeAfterOneSecond,
    EnemiesDontMove,
    MonstersNeverAttackOrFlee,
    DontCheckMonsterColliders,
    SpawnOnlyOneEnemy,
}

/// Which debug switches are on.
#[derive(Debug, Clone, Copy, PartialEq, Eq, Structural)]
pub struct FunctionalityOverrides {
    pub always_spawn_bombs_in_middle: bool,
    pub all_bombs_explode_after_one_second: bool,
    pub enemies_dont_move: bool,
    pub monsters_never_attack_or_flee: bool,
    pub dont_check_monster_colliders: bool,
    pub spawn_only_one_enemy: bool,
}

impl FunctionalityOverrides {
    /// The switch `switch` is on.
    pub open spec fn is_enabled(self, switch: FunctionalityOverride) -> bool {
        match switch {
            FunctionalityOverride::AlwaysSpawnBombsInMiddle => self.always_spawn_bombs_in_middle,
            FunctionalityOverride::AllBombsExplodeAfterOneSecond => self.all_bombs_explode_after_one_second,
            FunctionalityOverride::EnemiesDontMove => self.enemies_dont_move,
            FunctionalityOverride::MonstersNeverAttackOrFlee => self.monsters_never_attack_or_flee,
            FunctionalityOverride::DontCheckMonsterColliders => self.dont_check_monster_colliders,
            FunctionalityOverride::SpawnOnlyOneEnemy => self.spawn_only_one_enemy,
        }
    }

    /// The game as it is played: every switch off.
    pub fn none() -> (r: FunctionalityOverrides)
        ensures
            forall|switch: FunctionalityOverride| !r.is_enabled(switch),
    {
        FunctionalityOverrides {
            always_spawn_bombs_in_middle: false,
            all_bombs_explode_after_one_second: false,
            enemies_dont_move: false,
            monsters_never_attack_or_flee: false,
            dont_check_monster_colliders: false,
            spawn_only_one_enemy: false,
        }
    }

    /// Whether the switch `switch` is on.
    pub fn enabled(&self, switch: FunctionalityOverride) -> (r: bool)
        ensures
            r == self.is_enabled(switch),
    {
        match switch {
            FunctionalityOverride::AlwaysSpawnBombsInMiddle => self.always_spawn_bombs_in_middle,
            FunctionalityOverride::AllBombsExplodeAfterOneSecond => self.all_bombs_explode_after_one_second,
            FunctionalityOverride::EnemiesDontMove => self.enemies_dont_move,
            FunctionalityOverride::MonstersNeverAttackOrFlee => self.monsters_never_attack_or_flee,
            FunctionalityOverride::DontCheckMonsterColliders => self.dont_check_monster_colliders,
            FunctionalityOverride::SpawnOnlyOneEnemy => self.spawn_only_one_enemy,
        }
    }

    /// Whether the switch `switch` is off.
    pub fn disabled(&self, switch: FunctionalityOverride) -> (r: bool)
        ensures
            r == !self.is_enabled(switch),
    {
        !self.enabled(switch)
    }
}

} // verus!
