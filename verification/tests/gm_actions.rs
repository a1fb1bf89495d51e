use space_gm::plugins::gm_action_manager::{
    gm_action_script_path, register_gm_function, send_on_gm_action, CommandRegistration, GMActions,
    GMCurrentAction,
};
use space_gm::script_args::ScriptArg;

fn picked() -> GMCurrentAction {
    let mut a = GMCurrentAction::default();
    a.pick_template("ships".to_string(), "corvette".to_string());
    a.pick_command("spawn".to_string());
    a
}

#[test]
fn registering_appends_new_commands_in_order() {
    let mut actions = GMActions::default();
    assert!(actions.register("spawn".to_string()));
    assert!(actions.register("delete".to_string()));
    assert_eq!(actions.command_list, vec!["spawn".to_string(), "delete".to_string()]);
    assert!(actions.is_registered("delete"));
    assert!(!actions.is_registered("move"));
}

#[test]
fn registering_twice_keeps_one_entry() {
    let mut actions = GMActions::default();
    let r1 = register_gm_function(&mut actions, ScriptArg::String("spawn".to_string()));
    let r2 = register_gm_function(&mut actions, ScriptArg::String("spawn".to_string()));
    assert_eq!(r1.unwrap(), CommandRegistration::Registered);
    assert_eq!(r2.unwrap(), CommandRegistration::AlreadyRegistered);
    assert_eq!(actions.command_list, vec!["spawn".to_string()]);
}

#[test]
fn registering_a_non_string_is_refused() {
    let mut actions = GMActions::default();
    let e = register_gm_function(&mut actions, ScriptArg::Float).unwrap_err();
    assert_eq!(e.found, "Float");
    let e = register_gm_function(&mut actions, ScriptArg::Function).unwrap_err();
    assert_eq!(e.found, "Function");
    assert!(actions.command_list.is_empty());
}

#[test]
fn picks_are_independent() {
    let mut a = GMCurrentAction::default();
    a.pick_command("spawn".to_string());
    a.pick_template("ships".to_string(), "corvette".to_string());
    assert_eq!(a.command.as_deref(), Some("spawn"));
    a.pick_command("delete".to_string());
    assert_eq!(a.template_category.as_deref(), Some("ships"));
    assert_eq!(a.template_name.as_deref(), Some("corvette"));
    assert_eq!(a.command.as_deref(), Some("delete"));
}

#[test]
fn click_sends_picked_action_with_world_point() {
    let call = send_on_gm_action(false, false, true, false, Some((12, -40)), &picked()).unwrap();
    assert_eq!(call.command, "spawn");
    assert_eq!(call.template_name, "corvette");
    assert_eq!((call.x, call.y), (12, -40));
    assert!(send_on_gm_action(false, false, false, true, Some((0, 0)), &picked()).is_some());
}

#[test]
fn click_taken_by_panel_or_without_button_sends_nothing() {
    assert!(send_on_gm_action(true, false, true, false, Some((1, 1)), &picked()).is_none());
    assert!(send_on_gm_action(false, true, true, true, Some((1, 1)), &picked()).is_none());
    assert!(send_on_gm_action(false, false, false, false, Some((1, 1)), &picked()).is_none());
    assert!(send_on_gm_action(false, false, true, false, None, &picked()).is_none());
}

#[test]
fn click_without_full_pick_sends_nothing() {
    let mut a = GMCurrentAction::default();
    assert!(send_on_gm_action(false, false, true, false, Some((1, 1)), &a).is_none());
    a.pick_command("spawn".to_string());
    assert!(send_on_gm_action(false, false, true, false, Some((1, 1)), &a).is_none());
    let mut b = GMCurrentAction::default();
    b.pick_template("ships".to_string(), "corvette".to_string());
    assert!(send_on_gm_action(false, false, true, false, Some((1, 1)), &b).is_none());
    let mut c = picked();
    c.template_category = None;
    assert!(send_on_gm_action(false, false, true, false, Some((1, 1)), &c).is_none());
}

#[test]
fn lua_and_luau_files_are_scripts() {
    assert_eq!(gm_action_script_path("AddEntityOnClickPos.lua").unwrap(), "lua/GMActions/AddEntityOnClickPos.lua");
    assert_eq!(gm_action_script_path("spawn.luau").unwrap(), "lua/GMActions/spawn.luau");
    assert_eq!(gm_action_script_path("a.b.lua").unwrap(), "lua/GMActions/a.b.lua");
    assert_eq!(gm_action_script_path("..lua").unwrap(), "lua/GMActions/..lua");
}

#[test]
fn other_files_are_not_scripts() {
    assert!(gm_action_script_path("notes.txt").is_none());
    assert!(gm_action_script_path("spawn.lua.bak").is_none());
    assert!(gm_action_script_path(".lua").is_none());
    assert!(gm_action_script_path("lua").is_none());
    assert!(gm_action_script_path("spawn.").is_none());
    assert!(gm_action_script_path("spawn.LUA").is_none());
    assert!(gm_action_script_path("..").is_none());
    assert!(gm_action_script_path("").is_none());
}
