//! The start-up scripts of the second scripting plugin, which loads one template file fewer.
use crate::plugins::gm_action_manager::texts;
use vstd::prelude::*;

verus! {

/// The script assets this plugin loads at start-up, in loading order.
pub fn load_script_assets() -> (paths: Vec<String>)
    ensures
        texts(paths@) == seq![
            "lua/library/Template.luau"@,
            "lua/library/FirstTemplates.luau"@,
            "lua/GMActions/AddEntityOnClickPos.lua"@,
            "lua/scenarios/test.lua"@,
        ],
{
    let paths = vec![
        String::from_str("lua/library/Template.luau"),
        String::from_str("lua/library/FirstTemplates.luau"),
        String::from_str("lua/GMActions/AddEntityOnClickPos.lua"),
        String::from_str("lua/scenarios/test.lua"),
    ];
    assert(texts(paths@) =~= seq![
        "lua/library/Template.luau"@,
        "lua/library/FirstTemplates.luau"@,
        "lua/GMActions/AddEntityOnClickPos.lua"@,
        "lua/scenarios/test.lua"@,
    ]);
    paths
}

/// The scripts attached to the script-running entity this plugin spawns.
pub fn spawn_loaded_scripts() -> (paths: Vec<String>)
    ensures
        texts(paths@) == seq!["lua/library/mainSettings.lua"@, "lua/GMActions/AddEntityOnClickPos.lua"@],
{
    let paths = vec![
        String::from_str("lua/library/mainSettings.lua"),
        String::from_str("lua/GMActions/AddEntityOnClickPos.lua"),
    ];
    assert(texts(paths@) =~= seq!["lua/library/mainSettings.lua"@, "lua/GMActions/AddEntityOnClickPos.lua"@]);
    paths
}

} // verus!
