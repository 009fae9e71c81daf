use vstd::prelude::*;
use vstd::string::*;

verus! {

/// What can go wrong with a bomb request.
#[derive(Debug, Clone, Copy, PartialEq, Eq, Structural)]
pub enum BombError {
    CouldntFindAPlaceToSpawnBombIn,
    AskedToTickAPreHeldBomb,
    CouldntParseTimerIntoInteger,
}

impl BombError {
    /// The sentence that reports the error.
    pub open spec fn describes(self, text: Seq<char>) -> bool {
        match self {
            BombError::CouldntFindAPlaceToSpawnBombIn => text
                == "A bomb spawn was requested but no valid place for it was found"@,
            BombError::AskedToTickAPreHeldBomb => text
                == "A bomb ticking request was sent but the bomb wasn't yet held"@,
            BombError::CouldntParseTimerIntoInteger => text
                == "Wanted to update a bombs text but it couldn't be parsed into an integer"@,
        }
    }

    /// The sentence that reports the error.
    pub fn message(&self) -> (text: String)
        ensures
            self.describes(text@),
    {
        match self {
            BombError::CouldntFindAPlaceToSpawnBombIn => String::from_str(
                "A bomb spawn was requested but no valid place for it was found",
            ),
            BombError::AskedToTickAPreHeldBomb => String::from_str(
                "A bomb ticking request was sent but the bomb wasn't yet held",
            ),
            BombError::CouldntParseTimerIntoInteger => String::from_str(
                "Wanted to update a bombs text but it couldn't be parsed into an integer",
            ),
        }
    }
}

} // verus!
