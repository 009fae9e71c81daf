use vstd::prelude::*;
use crate::entity::EntityId;
use crate::float_bits::F32Bits;
use crate::random::random_bool;
use crate::timers::{EmittingTimer, TimerAffectedEntity, TimerDoneEventType, TimerDuration};

verus! {

/// The shape of the main path a monster patrols once done fading in.
#[derive(Debug, Clone, Copy, PartialEq, Eq, Structural)]
pub struct MainPathChoice {
    /// The fixed five-pointed path rather than a square of random size.
    pub cursed_pentagon: bool,
    /// Walked in reverse.
    pub reversed: bool,
}

/// The stretch from vertex `i` to vertex `i + 1`, for each `i` but the last.
pub open spec fn consecutive_pairs<T>(vertices: Seq<T>) -> Seq<(T, T)> {
    Seq::new(
        if vertices.len() == 0 {
            0
        } else {
            (vertices.len() - 1) as nat
        },
        |i: int| (vertices[i], vertices[i + 1]),
    )
}

/// The timers of a monster's main path, one per stretch, run in turn as a
/// sequence that starts over once its last timer is done.
#[derive(Debug, Clone, PartialEq, Eq)]
pub struct PathTimerSequence {
    pub timers: Vec<EmittingTimer>,
    pub looping: bool,
}

/// Starts a monster's main path.
pub struct MonsterMainPathInitiationPlugin;

impl MonsterMainPathInitiationPlugin {
    /// Tosses for the shape of a new main path and its direction.
    pub fn choose_main_path() -> MainPathChoice {
        let cursed_pentagon = random_bool();
        let reversed = random_bool();
        MainPathChoice { cursed_pentagon, reversed }
    }

    /// The stretches a patrol along `vertices` is made of, one movement timer
    /// each: from each vertex to the next, the last vertex starting none.
    pub fn configure_path_stretches<T: Copy>(vertices: &Vec<T>) -> (stretches: Vec<(T, T)>)
        ensures
            stretches@ == consecutive_pairs(vertices@),
    {
        let mut stretches: Vec<(T, T)> = Vec::new();
        let mut i: usize = 0;
        while i + 1 < vertices.len()
            invariant
                i <= vertices.len(),
                i + 1 < vertices.len() || i == 0 || i + 1 == vertices.len(),
                stretches@.len() == i,
                forall|j: int| 0 <= j < i ==> stretches@[j] == (vertices@[j], vertices@[j + 1]),
            decreases vertices.len() - i,
        {
            stretches.push((vertices[i], vertices[i + 1]));
            i = i + 1;
        }
        assert(stretches@ =~= consecutive_pairs(vertices@));
        stretches
    }

    /// The looping sequence that walks `monster_entity` along its main path:
    /// one timer per stretch, each moving the monster by its stretch's
    /// calculator among `stretch_calculators`, all running `timers_duration`
    /// and announcing nothing when done.
    pub fn spawn_path_timer_sequence(
        monster_entity: EntityId,
        timers_duration: F32Bits,
        stretch_calculators: &Vec<EntityId>,
    ) -> (r: PathTimerSequence)
        ensures
            r.looping,
            r.timers@.len() == stretch_calculators.len(),
            forall|i: int|
                0 <= i < stretch_calculators.len() ==> (#[trigger] r.timers@[i]).acts_once_on(
                    TimerAffectedEntity {
                        affected_entity: monster_entity,
                        value_calculator_entity: Some(stretch_calculators@[i]),
                    },
                    TimerDuration::Seconds(timers_duration),
                    TimerDoneEventType::Nothing,
                ),
    {
        let mut timers: Vec<EmittingTimer> = Vec::new();
        let mut i: usize = 0;
        while i < stretch_calculators.len()
            invariant
                i <= stretch_calculators.len(),
                timers@.len() == i,
                forall|j: int|
                    0 <= j < i ==> (#[trigger] timers@[j]).acts_once_on(
                        TimerAffectedEntity {
                            affected_entity: monster_entity,
                            value_calculator_entity: Some(stretch_calculators@[j]),
                        },
                        TimerDuration::Seconds(timers_duration),
                        TimerDoneEventType::Nothing,
                    ),
            decreases stretch_calculators.len() - i,
        {
            let timer = EmittingTimer::for_single_entity(
                monster_entity,
                Some(stretch_calculators[i]),
                TimerDuration::Seconds(timers_duration),
                TimerDoneEventType::Nothing,
            );
            timers.push(timer);
            i = i + 1;
        }
        PathTimerSequence { timers, looping: true }
    }
}


/// A patrol along `n` vertices is made of `n - 1` stretches (none for no
/// vertex), the stretch `i` leading from vertex `i` to vertex `i + 1`.
pub proof fn lemma_path_stretches<T>(vertices: Seq<T>)
    ensures
        vertices.len() > 0 ==> consecutive_pairs(vertices).len() == vertices.len() - 1,
        vertices.len() == 0 ==> consecutive_pairs(vertices).len() == 0,
        forall|i: int|
            0 <= i < consecutive_pairs(vertices).len() ==> #[trigger] consecutive_pairs(vertices)[i]
                == (vertices[i], vertices[i + 1]),
{
}

} // verus!
