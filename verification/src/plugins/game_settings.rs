//! The settings script.
use crate::plugins::gm_action_manager::texts;
use vstd::prelude::*;

verus! {

/// The script that sets the game's settings, loaded at start-up.
pub fn load_settings_script() -> (paths: Vec<String>)
    ensures
        texts(paths@) == seq!["lua/mainSettings.luau"@],
{
    let paths = vec![String::from_str("lua/mainSettings.luau")];
    assert(texts(paths@) =~= seq!["lua/mainSettings.luau"@]);
    paths
}

} // verus!
