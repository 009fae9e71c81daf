pub mod monster_state_changer;
pub mod state_change_visualizer;
