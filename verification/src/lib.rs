//! Game-master tooling for a top-down space strategy map: the command and
//! template registries that scripts fill, the choices the game-master panel
//! makes, the grid skeleton and the camera's input decisions.
pub mod plugins;
pub mod script_args;
pub mod ui;
