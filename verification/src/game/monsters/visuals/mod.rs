pub mod animation_manager;
pub mod animation_starter;
