pub mod database_manager;
pub mod game_settings;
pub mod gm_action_manager;
pub mod map_grid_manager;
pub mod map_icon_manager;
pub mod rts_camera;
pub mod script_manager;
pub mod scripting;
pub mod template_store;
