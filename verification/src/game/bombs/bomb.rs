use vstd::prelude::*;
use crate::functionality_override::{FunctionalityOverride, FunctionalityOverrides};
use crate::game::bombs::bomb_state::BombState;
use crate::palette::PaletteColor;
use crate::random::random_in_range;
use crate::timers::TimeScaleRequest;

verus! {

/// Fewest whole seconds a bomb's fuse can last.
pub const BOMB_MIN_TIME: usize = 5;

/// A bomb's fuse lasts fewer whole seconds than this.
pub const BOMB_MAX_TIME: usize = 10;

/// A bomb whose fuse lasts at most this many seconds is about to explode from
/// the start.
pub const ABOUT_TO_EXPLODE_TIME_CIEL: usize = 3;

/// The colours a bomb and its countdown text are drawn in.
#[derive(Debug, Clone, Copy, PartialEq, Eq, Structural)]
pub struct BombAndTextColors {
    pub bomb: PaletteColor,
    pub text: PaletteColor,
}

/// What the rules track of a bomb: the length of its fuse in whole seconds, its
/// state and whether it is about to explode. Its remaining time and explosion
/// radius are measured by the engine and handed to the decisions that compare
/// them.
#[derive(Debug, Clone, Copy, PartialEq, Eq, Structural)]
pub struct Bomb {
    pub full_duration: usize,
    pub state: BombState,
    pub about_to_explode: bool,
}

impl Bomb {
    /// A bomb on the floor with a fuse of `full_duration` seconds.
    pub open spec fn fresh(full_duration: usize) -> Bomb {
        Bomb {
            full_duration,
            state: BombState::PreHeld,
            about_to_explode: full_duration <= ABOUT_TO_EXPLODE_TIME_CIEL,
        }
    }

    /// Red on white once about to explode; otherwise white on silver on the
    /// floor, dark orange on yellow when held, and no colours of its own after.
    pub open spec fn colors(self) -> Option<BombAndTextColors> {
        if self.about_to_explode {
            Some(BombAndTextColors { bomb: PaletteColor::Red, text: PaletteColor::White })
        } else {
            match self.state {
                BombState::PreHeld => Some(
                    BombAndTextColors { bomb: PaletteColor::White, text: PaletteColor::Silver },
                ),
                BombState::Held => Some(
                    BombAndTextColors { bomb: PaletteColor::DarkOrange, text: PaletteColor::Yellow },
                ),
                _ => None,
            }
        }
    }

    /// A bomb on the floor with a fuse of `full_duration` seconds.
    pub fn with_full_duration(full_duration: usize) -> (r: Bomb)
        ensures
            r == Bomb::fresh(full_duration),
    {
        Bomb {
            full_duration,
            state: BombState::PreHeld,
            about_to_explode: full_duration <= ABOUT_TO_EXPLODE_TIME_CIEL,
        }
    }

    /// A bomb on the floor: with a one-second fuse when the switch
    /// `AllBombsExplodeAfterOneSecond` is on, else with a fuse drawn at random
    /// from `BOMB_MIN_TIME..BOMB_MAX_TIME` seconds.
    pub fn new(overrides: &FunctionalityOverrides) -> (r: Bomb)
        ensures
            r == Bomb::fresh(r.full_duration),
            r.colors() is Some,
            overrides.is_enabled(FunctionalityOverride::AllBombsExplodeAfterOneSecond) ==> r.full_duration
                == 1,
            !overrides.is_enabled(FunctionalityOverride::AllBombsExplodeAfterOneSecond) ==> BOMB_MIN_TIME
                <= r.full_duration < BOMB_MAX_TIME,
    {
        let full_duration = if overrides.enabled(FunctionalityOverride::AllBombsExplodeAfterOneSecond) {
            1
        } else {
            random_in_range(BOMB_MIN_TIME, BOMB_MAX_TIME)
        };
        Bomb::with_full_duration(full_duration)
    }

    /// The colours the bomb and its text are drawn in, if its state has any.
    pub fn to_colors(&self) -> (r: Option<BombAndTextColors>)
        ensures
            r == self.colors(),
    {
        if self.about_to_explode {
            Some(BombAndTextColors { bomb: PaletteColor::Red, text: PaletteColor::White })
        } else {
            match self.state {
                BombState::PreHeld => Some(
                    BombAndTextColors { bomb: PaletteColor::White, text: PaletteColor::Silver },
                ),
                BombState::Held => Some(
                    BombAndTextColors { bomb: PaletteColor::DarkOrange, text: PaletteColor::Yellow },
                ),
                _ => None,
            }
        }
    }

    /// The player lets go of the bomb, which flies from there on.
    pub fn disconnect_from_player(&mut self)
        ensures
            *final(self) == (Bomb { state: BombState::PostHeld, ..*old(self) }),
    {
        self.state = BombState::PostHeld;
    }

    /// The bomb goes off. If it was held, the game goes back to normal speed.
    pub fn explode(&mut self) -> (time_scale: Option<TimeScaleRequest>)
        ensures
            *final(self) == (Bomb { state: BombState::Exploded, ..*old(self) }),
            time_scale == (if old(self).state == BombState::Held {
                Some(TimeScaleRequest::NormalSpeed)
            } else {
                None
            }),
    {
        let time_scale = if self.state == BombState::Held {
            Some(TimeScaleRequest::NormalSpeed)
        } else {
            None
        };
        self.state = BombState::Exploded;
        time_scale
    }

    /// The bomb is caught in another bomb's explosion: unless it has already
    /// gone off, it is marked as exploded and about to explode. Returns whether
    /// it changed.
    pub fn catch_in_explosion(&mut self) -> (changed: bool)
        ensures
            changed == (old(self).state != BombState::Exploded),
            changed ==> *final(self) == (Bomb {
                state: BombState::Exploded,
                about_to_explode: true,
                ..*old(self)
            }),
            !changed ==> *final(self) == *old(self),
    {
        if self.state == BombState::Exploded {
            return false;
        }
        self.state = BombState::Exploded;
        self.about_to_explode = true;
        true
    }
}


/// How a bomb looks: once about to explode it shows red on white, whatever its
/// state; before that, white on silver on the floor and dark orange on yellow
/// in the player's hands; thrown or gone off, it has no colours of its own. A
/// new bomb is about to explode from the start exactly when its fuse lasts at
/// most `ABOUT_TO_EXPLODE_TIME_CIEL` seconds.
pub proof fn lemma_bomb_looks(bomb: Bomb, full_duration: usize)
    ensures
        bomb.about_to_explode ==> bomb.colors() == Some(
            BombAndTextColors { bomb: PaletteColor::Red, text: PaletteColor::White },
        ),
        !bomb.about_to_explode && bomb.state == BombState::PreHeld ==> bomb.colors() == Some(
            BombAndTextColors { bomb: PaletteColor::White, text: PaletteColor::Silver },
        ),
        !bomb.about_to_explode && bomb.state == BombState::Held ==> bomb.colors() == Some(
            BombAndTextColors { bomb: PaletteColor::DarkOrange, text: PaletteColor::Yellow },
        ),
        !bomb.about_to_explode && (bomb.state == BombState::PostHeld || bomb.state
            == BombState::Exploded) ==> bomb.colors() is None,
        Bomb::fresh(full_duration).state == BombState::PreHeld,
        Bomb::fresh(full_duration).full_duration == full_duration,
        Bomb::fresh(full_duration).about_to_explode <==> full_duration <= ABOUT_TO_EXPLODE_TIME_CIEL,
{
}

} // verus!
