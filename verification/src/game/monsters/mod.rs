pub mod monster;
pub mod monster_audio;
pub mod monster_chase_updater;
pub mod monster_error;
pub mod monster_events;
pub mod monster_path;
pub mod monster_path_updater;
pub mod monster_spawner;
pub mod monster_spawning_sequence_manager;
pub mod monster_state;
pub mod monster_state_set_request;
pub mod state_management;
pub mod visuals;
