pub mod main_path_initiation;
pub mod stray_path_ender;
pub mod stray_path_updater;
