pub mod bomb;
pub mod bomb_error;
pub mod bomb_event_channel;
pub mod bomb_events;
pub mod bomb_explosion_previewer;
pub mod bomb_picking;
pub mod bomb_spawner;
pub mod bomb_state;
pub mod bomb_throwing;
pub mod bomb_throwing_manager;
pub mod bomb_ticker;
pub mod explosion_manager;
pub mod tags;
