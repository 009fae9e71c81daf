pub mod app_state;
pub mod bombs;
pub mod bounds_wrapped_logic;
pub mod event_channels;
pub mod facing_direction;
pub mod game_event_handler;
pub mod monsters;
pub mod player;
