//! Rules of Soul Bomb Monster Hunt: the decisions the game makes about bombs,
//! monsters, the player and the wrapped world, written over plain values so that
//! each of them carries a proved contract. The engine side (rendering, input,
//! timers and entity bookkeeping) hands these functions what it observed and
//! carries out what they decide.

pub mod entity;
pub mod float_bits;
pub mod functionality_override;
pub mod decimal;
pub mod palette;
pub mod random;
pub mod selection;
pub mod timers;
pub mod game;
