use vstd::prelude::*;
use crate::entity::{entity_debug, is_entity_debug_text};
use crate::game::monsters::monster_state::MonsterState;

verus! {

/// What can go wrong with a timer sequence.
#[derive(Debug, Clone, Copy, PartialEq, Eq, Structural)]
pub enum TimerSequenceError {
    ATimerFromASequenceFinishedButParentNotFound,
}

/// What can go wrong with a monster request.
#[derive(Debug, Clone, Copy, PartialEq, Eq, Structural)]
pub enum MonsterError {
    CouldntFindAPlaceToSpawnMonsterIn,
    TimerSequenceError(TimerSequenceError),
    NoPathSequenceFoundOnStateChange(MonsterState),
    NoMovementAffectingTimerFound,
    NoMovementTimerHadTheListedPathParentSequence,
    MonsterHasNoPathTimerSequenceAssigned,
}

/// `text` is the debug text of a monster state, as its derived `Debug`
/// writes it, the entity in it written as the engine writes an entity.
pub open spec fn is_state_debug_text(state: MonsterState, text: Seq<char>) -> bool {
    match state {
        MonsterState::Spawning => text == "Spawning"@,
        MonsterState::Idle => text == "Idle"@,
        MonsterState::Chasing(e) => exists|entity_text: Seq<char>|
            is_entity_debug_text(e.0, entity_text) && text == "Chasing("@ + entity_text + ")"@,
        MonsterState::Fleeing(e) => exists|entity_text: Seq<char>|
            is_entity_debug_text(e.0, entity_text) && text == "Fleeing("@ + entity_text + ")"@,
    }
}

/// A state whose entity, if it has one, is an entity handle.
pub open spec fn state_printable(state: MonsterState) -> bool {
    state.pursued() matches Some(e) ==> e.is_entity_handle()
}

impl TimerSequenceError {
    /// The sentence that reports the error.
    pub open spec fn describes(self, text: Seq<char>) -> bool {
        match self {
            TimerSequenceError::ATimerFromASequenceFinishedButParentNotFound => text
                == "A timer from a sequence finished but its parent sequence was not found"@,
        }
    }

    /// The sentence that reports the error.
    pub fn message(&self) -> (text: String)
        ensures
            self.describes(text@),
    {
        match self {
            TimerSequenceError::ATimerFromASequenceFinishedButParentNotFound => String::from_str(
                "A timer from a sequence finished but its parent sequence was not found",
            ),
        }
    }
}

impl MonsterError {
    /// The sentence that reports the error.
    pub open spec fn describes(self, text: Seq<char>) -> bool {
        match self {
            MonsterError::CouldntFindAPlaceToSpawnMonsterIn => text
                == "A monster spawn was requested but no valid place for it was found"@,
            MonsterError::TimerSequenceError(e) => e.describes(text),
            MonsterError::NoPathSequenceFoundOnStateChange(state) => exists|state_text: Seq<char>|
                is_state_debug_text(state, state_text) && text
                    == "Tried to manipulate path when changing to state "@ + state_text
                    + " but no path sequence was found"@,
            MonsterError::NoMovementAffectingTimerFound => text
                == "No affecting movement affecting timer was found"@,
            MonsterError::NoMovementTimerHadTheListedPathParentSequence => text
                == "Found movement affecting timers, but none has the sequence listed in the monster's struct"@,
            MonsterError::MonsterHasNoPathTimerSequenceAssigned => text
                == "The monster has no path timer sequence assigned"@,
        }
    }

    /// The sentence that reports the error.
    pub fn message(&self) -> (text: String)
        requires
            *self matches MonsterError::NoPathSequenceFoundOnStateChange(state) ==> state_printable(
                state,
            ),
        ensures
            self.describes(text@),
    {
        match self {
            MonsterError::CouldntFindAPlaceToSpawnMonsterIn => String::from_str(
                "A monster spawn was requested but no valid place for it was found",
            ),
            MonsterError::TimerSequenceError(e) => e.message(),
            MonsterError::NoPathSequenceFoundOnStateChange(state) => {
                let mut text = String::from_str("Tried to manipulate path when changing to state ");
                let ghost start = text@;
                match state {
                    MonsterState::Spawning => {
                        text.append("Spawning");
                        assert(text@.subrange(start.len() as int, text@.len() as int) =~= "Spawning"@);
                    },
                    MonsterState::Idle => {
                        text.append("Idle");
                        assert(text@.subrange(start.len() as int, text@.len() as int) =~= "Idle"@);
                    },
                    MonsterState::Chasing(e) => {
                        text.append("Chasing(");
                        let entity_text = entity_debug(*e);
                        text.append(entity_text.as_str());
                        text.append(")");
                        assert(text@ =~= start + ("Chasing("@ + entity_text@ + ")"@));
                        assert(text@.subrange(start.len() as int, text@.len() as int) =~= "Chasing("@
                            + entity_text@ + ")"@);
                    },
                    MonsterState::Fleeing(e) => {
                        text.append("Fleeing(");
                        let entity_text = entity_debug(*e);
                        text.append(entity_text.as_str());
                        text.append(")");
                        assert(text@ =~= start + ("Fleeing("@ + entity_text@ + ")"@));
                        assert(text@.subrange(start.len() as int, text@.len() as int) =~= "Fleeing("@
                            + entity_text@ + ")"@);
                    },
                }
                let ghost state_text = text@.subrange(start.len() as int, text@.len() as int);
                assert(text@ =~= start + state_text);
                assert(is_state_debug_text(*state, state_text));
                text.append(" but no path sequence was found");
                assert(text@ =~= "Tried to manipulate path when changing to state "@ + state_text
                    + " but no path sequence was found"@);
                text
            },
            MonsterError::NoMovementAffectingTimerFound => String::from_str(
                "No affecting movement affecting timer was found",
            ),
            MonsterError::NoMovementTimerHadTheListedPathParentSequence => String::from_str(
                "Found movement affecting timers, but none has the sequence listed in the monster's struct",
            ),
            MonsterError::MonsterHasNoPathTimerSequenceAssigned => String::from_str(
                "The monster has no path timer sequence assigned",
            ),
        }
    }
}

impl From<TimerSequenceError> for MonsterError {
    fn from(value: TimerSequenceError) -> (r: MonsterError) {
        MonsterError::TimerSequenceError(value)
    }
}

impl vstd::std_specs::convert::FromSpecImpl<TimerSequenceError> for MonsterError {
    open spec fn obeys_from_spec() -> bool {
        true
    }

    open spec fn from_spec(value: TimerSequenceError) -> MonsterError {
        MonsterError::TimerSequenceError(value)
    }
}

} // verus!
