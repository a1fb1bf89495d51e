# space_gm

The rules of a game master's tools for a top-down space strategy map, as a
verified library, with the bevy game around it in `app/`.

- `src/plugins/database_manager.rs`: the template database that scripts fill
  (`add_template_to_database`), and its laws: a template reads back after it
  is added, nothing else changes, adding twice is adding once.
- `src/plugins/template_store.rs`: the bevy hash maps that hold the database,
  behind trusted wrappers whose contracts speak of the maps' contents.
- `src/plugins/gm_action_manager.rs`: registering game-master commands
  (never twice), picking a template and a command, deciding when a click on
  the map sends them to the scripts, and which files are action scripts.
- `src/ui/gm_ui.rs`: the panel's open tab and its button grids.
- `src/plugins/map_grid_manager.rs`: the grid's lines in cell units.
- `src/plugins/rts_camera.rs`: the direction of keyboard panning.
- `src/plugins/map_icon_manager.rs`: the icon catalogue and the order in which
  an icon is attached to an entity.
- `src/plugins/script_manager.rs`, `scripting.rs`, `game_settings.rs`: the
  scripts loaded at start-up.

`app/` holds the bevy systems: rendering, input, the ECS world, the script
runtime, and the floating-point camera and grid arithmetic.
