use vstd::prelude::*;
use crate::decimal::{
    decimal_chars, lemma_parse_decimal_round_trip, parse_usize, parsed_usize, usize_to_decimal,
};
use crate::game::bombs::bomb_error::BombError;
use crate::game::bombs::bomb_state::BombState;

verus! {

/// From this many whole seconds left down, each second of the countdown ticks
/// audibly.
pub const BOMB_TICK_SOUND_CEIL: usize = 3;

/// A new countdown text, and whether the tick is heard.
#[derive(Debug)]
pub struct BombTextTick {
    pub text: String,
    pub tick_sound: bool,
}

/// What a countdown step does to a bomb's text: a held or thrown bomb whose
/// text reads a whole number at least as large as the seconds left (rounded
/// up) shows the seconds left, with a tick in the last seconds; a larger
/// remaining time leaves the text alone; a text that is no whole number is an
/// error, and a bomb on the floor is not ticked at all.
pub open spec fn countdown_text_step(
    state: BombState,
    displayed: Seq<char>,
    ceiled_time_until_explosion: usize,
) -> Result<Option<(Seq<char>, bool)>, BombError> {
    if state == BombState::PreHeld {
        Err(BombError::AskedToTickAPreHeldBomb)
    } else {
        match parsed_usize(displayed) {
            None => Err(BombError::CouldntParseTimerIntoInteger),
            Some(shown) => if shown >= ceiled_time_until_explosion {
                Ok(
                    Some(
                        (
                            decimal_chars(ceiled_time_until_explosion as nat),
                            ceiled_time_until_explosion <= BOMB_TICK_SOUND_CEIL,
                        ),
                    ),
                )
            } else {
                Ok(None)
            },
        }
    }
}

/// Counts bombs down.
pub struct BombTickerPlugin;

impl BombTickerPlugin {
    /// One countdown step for a bomb in state `state` whose text shows
    /// `displayed`, now that `ceiled_time_until_explosion` whole seconds are
    /// left (rounded up); see `countdown_text_step`.
    pub fn tick_bomb_text(
        state: BombState,
        displayed: &str,
        ceiled_time_until_explosion: usize,
    ) -> (r: Result<Option<BombTextTick>, BombError>)
        ensures
            countdown_text_step(state, displayed@, ceiled_time_until_explosion) == match r {
                Ok(Some(tick)) => Ok(Some((tick.text@, tick.tick_sound))),
                Ok(None) => Ok(None),
                Err(e) => Err(e),
            },
    {
        if state == BombState::PreHeld {
            return Err(BombError::AskedToTickAPreHeldBomb);
        }
        match parse_usize(displayed) {
            None => Err(BombError::CouldntParseTimerIntoInteger),
            Some(shown) => {
                if shown >= ceiled_time_until_explosion {
                    Ok(
                        Some(
                            BombTextTick {
                                text: usize_to_decimal(ceiled_time_until_explosion),
                                tick_sound: ceiled_time_until_explosion <= BOMB_TICK_SOUND_CEIL,
                            },
                        ),
                    )
                } else {
                    Ok(None)
                }
            },
        }
    }
}


/// A countdown step that rewrites the text writes the seconds left, which
/// read back as that number, and ticks audibly exactly in the last
/// `BOMB_TICK_SOUND_CEIL` seconds; a held bomb and a thrown one (or one gone
/// off) step alike, and only a bomb on the floor is refused.
pub proof fn lemma_countdown_ticks_in_the_last_seconds(
    state: BombState,
    displayed: Seq<char>,
    ceiled_time_until_explosion: usize,
)
    ensures
        countdown_text_step(state, displayed, ceiled_time_until_explosion) matches Ok(Some((text, tick)))
            ==> {
            &&& parsed_usize(text) == Some(ceiled_time_until_explosion)
            &&& tick <==> ceiled_time_until_explosion <= BOMB_TICK_SOUND_CEIL
        },
        state != BombState::PreHeld ==> countdown_text_step(
            state,
            displayed,
            ceiled_time_until_explosion,
        ) == countdown_text_step(BombState::Held, displayed, ceiled_time_until_explosion),
        countdown_text_step(BombState::Held, displayed, ceiled_time_until_explosion)
            == countdown_text_step(BombState::PostHeld, displayed, ceiled_time_until_explosion),
        state == BombState::PreHeld <==> countdown_text_step(
            state,
            displayed,
            ceiled_time_until_explosion,
        ) == Err::<Option<(Seq<char>, bool)>, BombError>(BombError::AskedToTickAPreHeldBomb),
        state != BombState::PreHeld && parsed_usize(displayed) is Some && parsed_usize(displayed)->0
            >= ceiled_time_until_explosion ==> countdown_text_step(
            state,
            displayed,
            ceiled_time_until_explosion,
        ) is Ok && countdown_text_step(state, displayed, ceiled_time_until_explosion)->Ok_0 is Some,
{
    lemma_parse_decimal_round_trip(ceiled_time_until_explosion);
}

} // verus!
