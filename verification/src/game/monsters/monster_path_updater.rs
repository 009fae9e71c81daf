use vstd::prelude::*;
use crate::game::monsters::monster_path::stray_path_updater::MovementTimer;

verus! {

/// Replaces a monster's path when it starts chasing.
pub struct MonsterPathUpdaterPlugin;

impl MonsterPathUpdaterPlugin {
    /// The movement timer to take out: the first that belongs to some
    /// sequence, if any does.
    pub fn destroy_current_path_timer(direct_line_movers: &Vec<MovementTimer>) -> (r: Option<usize>)
        ensures
            r is None <==> forall|j: int|
                0 <= j < direct_line_movers.len() ==> direct_line_movers@[j].parent_sequence is None,
            r matches Some(i) ==> i < direct_line_movers.len()
                && direct_line_movers@[i as int].parent_sequence is Some && forall|j: int|
                0 <= j < i ==> direct_line_movers@[j].parent_sequence is None,
    {
        let mut i: usize = 0;
        while i < direct_line_movers.len()
            invariant
                i <= direct_line_movers.len(),
                forall|j: int| 0 <= j < i ==> direct_line_movers@[j].parent_sequence is None,
            decreases direct_line_movers.len() - i,
        {
            if direct_line_movers[i].parent_sequence.is_some() {
                return Some(i);
            }
            i = i + 1;
        }
        None
    }
}

} // verus!
