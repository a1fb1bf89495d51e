//! The scripts that the game loads at start-up.
use crate::plugins::gm_action_manager::texts;
use vstd::prelude::*;

verus! {

/// The script assets loaded at start-up, in loading order.
pub fn load_script_assets() -> (paths: Vec<String>)
    ensures
        texts(paths@) == seq![
            "lua/library/Template.luau"@,
            "lua/templates/FirstTemplates.luau"@,
            "lua/templates/TemplateManager.luau"@,
            "lua/GMActions/AddEntityOnClickPos.lua"@,
            "lua/scenarios/test.lua"@,
        ],
{
    let paths = vec![
        String::from_str("lua/library/Template.luau"),
        String::from_str("lua/templates/FirstTemplates.luau"),
        String::from_str("lua/templates/TemplateManager.luau"),
        String::from_str("lua/GMActions/AddEntityOnClickPos.lua"),
        String::from_str("lua/scenarios/test.lua"),
    ];
    assert(texts(paths@) =~= seq![
        "lua/library/Template.luau"@,
        "lua/templates/FirstTemplates.luau"@,
        "lua/templates/TemplateManager.luau"@,
        "lua/GMActions/AddEntityOnClickPos.lua"@,
        "lua/scenarios/test.lua"@,
    ]);
    paths
}

/// The scripts attached to the script-running entity spawned at start-up.
pub fn spawn_loaded_scripts() -> (paths: Vec<String>)
    ensures
        texts(paths@) == seq!["lua/library/mainSettings.lua"@, "lua/GMActions/AddEntityOnClickPos.lua"@],
{
    let paths = vec![
        String::from_str("lua/library/mainSettings.lua"),
        String::from_str("lua/GMActions/AddEntityOnClickPos.lua"),
    ];
    assert(texts(paths@) =~= seq!["lua/library/mainSettings.lua"@, "lua/GMActions/AddEntityOnClickPos.lua"@]);
    paths
}

} // verus!
