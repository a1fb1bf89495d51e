use space_gm::plugins::game_settings::load_settings_script;
use space_gm::plugins::map_grid_manager::{grid_lines, GridLine};
use space_gm::plugins::map_icon_manager::{map_icon_path, map_icons};
use space_gm::plugins::rts_camera::movement_direction;
use space_gm::plugins::{script_manager, scripting};

#[test]
fn grid_has_border_lines_in_cell_units() {
    let lines = grid_lines(2, 1);
    assert_eq!(lines.len(), 5);
    assert_eq!(lines[0], GridLine { from_x: 0, from_y: 0, to_x: 0, to_y: 1 });
    assert_eq!(lines[2], GridLine { from_x: 2, from_y: 0, to_x: 2, to_y: 1 });
    assert_eq!(lines[3], GridLine { from_x: 0, from_y: 0, to_x: 2, to_y: 0 });
    assert_eq!(lines[4], GridLine { from_x: 0, from_y: 1, to_x: 2, to_y: 1 });
}

#[test]
fn default_grid_has_eleven_lines_each_way() {
    let lines = grid_lines(10, 10);
    assert_eq!(lines.len(), 22);
    assert_eq!(lines[10], GridLine { from_x: 10, from_y: 0, to_x: 10, to_y: 10 });
    assert_eq!(lines[21], GridLine { from_x: 0, from_y: 10, to_x: 10, to_y: 10 });
}

#[test]
fn empty_and_negative_grids() {
    assert_eq!(grid_lines(0, 0), vec![
        GridLine { from_x: 0, from_y: 0, to_x: 0, to_y: 0 },
        GridLine { from_x: 0, from_y: 0, to_x: 0, to_y: 0 },
    ]);
    let lines = grid_lines(-1, 1);
    assert_eq!(lines, vec![
        GridLine { from_x: 0, from_y: 0, to_x: -1, to_y: 0 },
        GridLine { from_x: 0, from_y: 1, to_x: -1, to_y: 1 },
    ]);
    assert!(grid_lines(-3, -1).is_empty());
}

#[test]
fn arrow_keys_give_direction() {
    assert_eq!(movement_direction(false, false, false, false), (0, 0));
    assert_eq!(movement_direction(true, false, false, false), (-1, 0));
    assert_eq!(movement_direction(false, true, true, false), (1, 1));
    assert_eq!(movement_direction(false, false, false, true), (0, -1));
    assert_eq!(movement_direction(true, true, true, true), (0, 0));
    assert_eq!(movement_direction(true, true, false, true), (0, -1));
}

#[test]
fn startup_scripts() {
    assert_eq!(script_manager::load_script_assets(), vec![
        "lua/library/Template.luau",
        "lua/templates/FirstTemplates.luau",
        "lua/templates/TemplateManager.luau",
        "lua/GMActions/AddEntityOnClickPos.lua",
        "lua/scenarios/test.lua",
    ]);
    assert_eq!(scripting::load_script_assets(), vec![
        "lua/library/Template.luau",
        "lua/library/FirstTemplates.luau",
        "lua/GMActions/AddEntityOnClickPos.lua",
        "lua/scenarios/test.lua",
    ]);
    assert_eq!(script_manager::spawn_loaded_scripts(), vec![
        "lua/library/mainSettings.lua",
        "lua/GMActions/AddEntityOnClickPos.lua",
    ]);
    assert_eq!(scripting::spawn_loaded_scripts(), script_manager::spawn_loaded_scripts());
    assert_eq!(load_settings_script(), vec!["lua/mainSettings.luau"]);
}

#[test]
fn icon_catalog() {
    assert_eq!(map_icon_path("corvette"), "map_icons/corvette.png");
    let icons = map_icons();
    let names: Vec<&str> = icons.iter().map(|(n, _)| n.as_str()).collect();
    assert_eq!(names, vec!["corvette", "cruiser", "destroyer", "frigate", "mine"]);
    assert_eq!(icons[4].1, "map_icons/mine.png");
    assert_eq!(icons[2].1, "map_icons/destroyer.png");
}
