//! Game-master actions: the commands that scripts register, the action the
//! game master has picked, the click that sends it to the scripts, and which
//! files of the action folder are scripts to load.
use crate::script_args::{spec_kind_name, str_eq, ScriptArg};
use vstd::prelude::*;

verus! {

/// The template and the command that the game master has picked.
#[derive(Debug, Clone)]
pub struct GMCurrentAction {
    pub template_category: Option<String>,
    pub template_name: Option<String>,
    pub command: Option<String>,
}

/// The commands that scripts have registered, in the order they came.
#[derive(Clone)]
pub struct GMActions {
    pub command_list: Vec<String>,
}

/// The texts of a list of strings.
pub open spec fn texts(list: Seq<String>) -> Seq<Seq<char>> {
    list.map_values(|s: String| s@)
}

/// The command list after `name` is registered: appended if it is new,
/// unchanged if it is already there.
pub open spec fn registered(commands: Seq<Seq<char>>, name: Seq<char>) -> Seq<Seq<char>> {
    if commands.contains(name) {
        commands
    } else {
        commands.push(name)
    }
}

impl Default for GMCurrentAction {
    fn default() -> (action: Self)
        ensures
            action.template_category is None,
            action.template_name is None,
            action.command is None,
    {
        GMCurrentAction { template_category: None, template_name: None, command: None }
    }
}

impl Default for GMActions {
    fn default() -> (actions: Self)
        ensures
            actions.command_list@.len() == 0,
    {
        GMActions { command_list: Vec::new() }
    }
}

/// The action after the game master picks template `name` of library `category`.
pub open spec fn with_template_pick(action: GMCurrentAction, category: String, name: String) -> GMCurrentAction {
    GMCurrentAction { template_category: Some(category), template_name: Some(name), ..action }
}

/// The action after the game master picks `command`.
pub open spec fn with_command_pick(action: GMCurrentAction, command: String) -> GMCurrentAction {
    GMCurrentAction { command: Some(command), ..action }
}

impl GMCurrentAction {
    /// The game master picks template `name` of library `category`; the
    /// picked command stays.
    pub fn pick_template(&mut self, category: String, name: String)
        ensures
            *final(self) == with_template_pick(*old(self), category, name),
            final(self).template_category == Some(category),
            final(self).template_name == Some(name),
            final(self).command == old(self).command,
    {
        self.template_category = Some(category);
        self.template_name = Some(name);
    }

    /// The game master picks `command`; the picked template stays.
    pub fn pick_command(&mut self, command: String)
        ensures
            *final(self) == with_command_pick(*old(self), command),
            final(self).command == Some(command),
            final(self).template_category == old(self).template_category,
            final(self).template_name == old(self).template_name,
    {
        self.command = Some(command);
    }
}

impl GMActions {
    /// Whether `name` is among the registered commands.
    pub fn is_registered(&self, name: &str) -> (found: bool)
        ensures
            found == texts(self.command_list@).contains(name@),
    {
        let mut i: usize = 0;
        while i < self.command_list.len()
            invariant
                i <= self.command_list@.len(),
                forall|j: int| 0 <= j < i ==> self.command_list@[j]@ != name@,
            decreases self.command_list@.len() - i,
        {
            if str_eq(self.command_list[i].as_str(), name) {
                assert(texts(self.command_list@)[i as int] == name@);
                return true;
            }
            i = i + 1;
        }
        proof {
            if texts(self.command_list@).contains(name@) {
                let j = choose|j: int| 0 <= j < texts(self.command_list@).len() && texts(self.command_list@)[j] == name@;
                assert(self.command_list@[j]@ == name@);
            }
        }
        false
    }

    /// Registers the command `name`: appends it unless it is registered
    /// already. Returns whether it was appended.
    pub fn register(&mut self, name: String) -> (added: bool)
        ensures
            added == !texts(old(self).command_list@).contains(name@),
            texts(final(self).command_list@) == registered(texts(old(self).command_list@), name@),
            final(self).command_list@ == (if added {
                old(self).command_list@.push(name)
            } else {
                old(self).command_list@
            }),
    {
        if self.is_registered(name.as_str()) {
            false
        } else {
            let ghost before = self.command_list@;
            self.command_list.push(name);
            assert(texts(self.command_list@) =~= texts(before).push(name@));
            true
        }
    }
}

/// What registering a command did.
#[derive(PartialEq, Eq, Structural, Debug, Clone, Copy)]
pub enum CommandRegistration {
    Registered,
    AlreadyRegistered,
}

/// A command name that was not a string, with the kind of value it was.
#[derive(Clone, Debug)]
pub struct CommandArgError {
    pub found: String,
}

/// The function that scripts call to register a game-master command: the
/// name must be a string; a name that is already registered is left as it is.
pub fn register_gm_function(actions: &mut GMActions, name: ScriptArg) -> (result: Result<CommandRegistration, CommandArgError>)
    ensures
        match name {
            ScriptArg::String(n) => {
                &&& texts(final(actions).command_list@) == registered(texts(old(actions).command_list@), n@)
                &&& result matches Ok(r) && (r == CommandRegistration::AlreadyRegistered
                    <==> texts(old(actions).command_list@).contains(n@))
            },
            other => {
                &&& result matches Err(e) && e.found@ == spec_kind_name(other)
                &&& final(actions).command_list@ == old(actions).command_list@
            },
        },
{
    match name {
        ScriptArg::String(n) => {
            if actions.register(n) {
                Ok(CommandRegistration::Registered)
            } else {
                Ok(CommandRegistration::AlreadyRegistered)
            }
        },
        other => Err(CommandArgError { found: other.kind_name() }),
    }
}

/// Registering keeps the command list free of repeats.
pub proof fn lemma_register_keeps_unique(commands: Seq<Seq<char>>, name: Seq<char>)
    requires
        commands.no_duplicates(),
    ensures
        registered(commands, name).no_duplicates(),
{
}

/// After registering, the command is in the list; commands registered before
/// keep their places.
pub proof fn lemma_register_appends(commands: Seq<Seq<char>>, name: Seq<char>)
    ensures
        registered(commands, name).contains(name),
        commands.is_prefix_of(registered(commands, name)),
        registered(commands, name).len() == commands.len() + (if commands.contains(name) { 0int } else { 1int }),
        !commands.contains(name) ==> registered(commands, name)[commands.len() as int] == name,
{
    if !commands.contains(name) {
        assert(commands.push(name)[commands.len() as int] == name);
    }
}

/// Registering the same command twice is the same as registering it once.
pub proof fn lemma_register_idempotent(commands: Seq<Seq<char>>, name: Seq<char>)
    ensures
        registered(registered(commands, name), name) == registered(commands, name),
{
    lemma_register_appends(commands, name);
}

/// What a game-master click sends to the scripts: the picked command, the
/// picked template and the clicked point of the world.
#[derive(Clone, Debug)]
pub struct GmActionCall {
    pub command: String,
    pub template_name: String,
    pub x: i64,
    pub y: i64,
}

/// A click reaches the map: the panel is not taking the pointer or the
/// keyboard, and the left or the right button was just pressed.
pub open spec fn click_reaches_map(
    ui_wants_pointer: bool,
    ui_wants_keyboard: bool,
    left_just_pressed: bool,
    right_just_pressed: bool,
) -> bool {
    !ui_wants_pointer && !ui_wants_keyboard && (left_just_pressed || right_just_pressed)
}

/// The game master has picked a command and a template (with its category).
pub open spec fn action_ready(action: GMCurrentAction) -> bool {
    action.command is Some && action.template_category is Some && action.template_name is Some
}

/// Decides what one frame's click does: sends the picked command and template
/// with the clicked world point when the click reaches the map, the cursor
/// has a world point, and a command and a template are picked; else nothing.
pub fn send_on_gm_action(
    ui_wants_pointer: bool,
    ui_wants_keyboard: bool,
    left_just_pressed: bool,
    right_just_pressed: bool,
    world_position: Option<(i64, i64)>,
    current_action: &GMCurrentAction,
) -> (call: Option<GmActionCall>)
    ensures
        call is Some <==> click_reaches_map(ui_wants_pointer, ui_wants_keyboard, left_just_pressed, right_just_pressed)
            && world_position is Some && action_ready(*current_action),
        ui_wants_pointer ==> call is None,
        ui_wants_keyboard ==> call is None,
        !left_just_pressed && !right_just_pressed ==> call is None,
        call is Some <==> {
            &&& !ui_wants_pointer
            &&& !ui_wants_keyboard
            &&& (left_just_pressed || right_just_pressed)
            &&& world_position is Some
            &&& current_action.command is Some
            &&& current_action.template_category is Some
            &&& current_action.template_name is Some
        },
        call matches Some(c) ==> {
            &&& c.command@ == current_action.command->0@
            &&& c.template_name@ == current_action.template_name->0@
            &&& (c.x, c.y) == world_position->0
        },
{
    if ui_wants_pointer || ui_wants_keyboard {
        return None;
    }
    if !(left_just_pressed || right_just_pressed) {
        return None;
    }
    let (x, y) = match world_position {
        Some(p) => p,
        None => return None,
    };
    let command = match &current_action.command {
        Some(c) => c.clone(),
        None => return None,
    };
    match (&current_action.template_category, &current_action.template_name) {
        (Some(_), Some(name)) => Some(GmActionCall { command, template_name: name.clone(), x, y }),
        _ => None,
    }
}

/// Once a template and a command are picked, in either order, a click on the
/// map sends them: the action is ready.
pub proof fn lemma_picks_make_action_ready(action: GMCurrentAction, category: String, name: String, command: String)
    ensures
        action_ready(with_command_pick(with_template_pick(action, category, name), command)),
        action_ready(with_template_pick(with_command_pick(action, command), category, name)),
{
}

/// A pick sets exactly what was picked, whatever was picked before: the
/// latest template pick and the latest command pick are the ones that count.
pub proof fn lemma_latest_pick_wins(
    action: GMCurrentAction,
    category: String,
    name: String,
    other_category: String,
    other_name: String,
    command: String,
    other_command: String,
)
    ensures
        with_template_pick(action, category, name).template_category == Some(category),
        with_template_pick(action, category, name).template_name == Some(name),
        with_template_pick(with_template_pick(action, other_category, other_name), category, name).template_name
            == Some(name),
        with_template_pick(with_template_pick(action, other_category, other_name), category, name).template_category
            == Some(category),
        with_command_pick(action, command).command == Some(command),
        with_command_pick(with_command_pick(action, other_command), command).command == Some(command),
{
}

/// A click reaches the map exactly when the panel takes neither the pointer
/// nor the keyboard and the left or the right button was just pressed; while
/// the panel takes the pointer or the keyboard, no button reaches the map.
pub proof fn lemma_click_reaches_map_exactly(
    ui_wants_pointer: bool,
    ui_wants_keyboard: bool,
    left_just_pressed: bool,
    right_just_pressed: bool,
)
    ensures
        click_reaches_map(ui_wants_pointer, ui_wants_keyboard, left_just_pressed, right_just_pressed) == (
        !ui_wants_pointer && !ui_wants_keyboard && (left_just_pressed || right_just_pressed)),
        ui_wants_pointer ==> !click_reaches_map(true, ui_wants_keyboard, left_just_pressed, right_just_pressed),
        ui_wants_keyboard ==> !click_reaches_map(ui_wants_pointer, true, left_just_pressed, right_just_pressed),
        !click_reaches_map(ui_wants_pointer, ui_wants_keyboard, false, false),
{
}

/// Picking a template leaves the picked command, and picking a command
/// leaves the picked template.
pub proof fn lemma_picks_are_independent(action: GMCurrentAction, category: String, name: String, command: String)
    ensures
        with_template_pick(action, category, name).command == action.command,
        with_command_pick(action, command).template_category == action.template_category,
        with_command_pick(action, command).template_name == action.template_name,
{
}

/// A file name made of a non-empty stem, a dot and an extension without dots
/// has that extension; a name with no dot, or whose only dot is its first
/// character, has none.
pub proof fn lemma_file_extension_of(stem: Seq<char>, extension: Seq<char>)
    requires
        stem.len() > 0,
        forall|i: int| 0 <= i < extension.len() ==> extension[i] != '.',
        stem + seq!['.'] + extension != ".."@,
    ensures
        file_extension(stem + seq!['.'] + extension) == Some(extension),
        (forall|i: int| 0 <= i < stem.len() ==> stem[i] != '.') ==> file_extension(stem) is None,
        (forall|i: int| 0 <= i < extension.len() ==> extension[i] != '.') ==> file_extension(
            seq!['.'] + extension,
        ) is None,
{
    let name = stem + seq!['.'] + extension;
    lemma_last_index_no_char(extension, '.');
    lemma_last_index_after(stem + seq!['.'], extension, '.');
    assert((stem + seq!['.']).last() == '.');
    assert(name.subrange(stem.len() as int + 1, name.len() as int) =~= extension);
    lemma_last_index_no_char(stem, '.');
    lemma_last_index_after(seq!['.'], extension, '.');
    assert(seq!['.'].last() == '.');
    assert(seq!['.'].drop_last() =~= Seq::<char>::empty());
}

/// A file with a non-empty stem is an action script exactly when its
/// extension (the part after its last dot) is `lua` or `luau`.
pub proof fn lemma_script_files_by_extension(stem: Seq<char>, extension: Seq<char>)
    requires
        stem.len() > 0,
        forall|i: int| 0 <= i < extension.len() ==> extension[i] != '.',
        stem + seq!['.'] + extension != ".."@,
    ensures
        is_gm_script_file(stem + seq!['.'] + extension) <==> (extension == "lua"@ || extension == "luau"@),
{
    lemma_file_extension_of(stem, extension);
}

/// A sequence without `c` has no last occurrence of it.
proof fn lemma_last_index_no_char(s: Seq<char>, c: char)
    ensures
        (forall|i: int| 0 <= i < s.len() ==> s[i] != c) ==> last_index_of(s, c) == -1,
    decreases s.len(),
{
    if s.len() > 0 {
        lemma_last_index_no_char(s.drop_last(), c);
        if forall|i: int| 0 <= i < s.len() ==> s[i] != c {
            assert(s.last() == s[s.len() - 1]);
            assert forall|i: int| 0 <= i < s.drop_last().len() implies s.drop_last()[i] != c by {
                assert(s.drop_last()[i] == s[i]);
            }
        }
    }
}

/// Appending a part without `c` keeps the last occurrence of `c` where it was.
proof fn lemma_last_index_after(a: Seq<char>, b: Seq<char>, c: char)
    requires
        forall|i: int| 0 <= i < b.len() ==> b[i] != c,
    ensures
        last_index_of(a + b, c) == last_index_of(a, c),
    decreases b.len(),
{
    if b.len() > 0 {
        let ab = a + b;
        assert(ab.drop_last() =~= a + b.drop_last());
        assert(ab.last() == b[b.len() - 1]);
        assert forall|i: int| 0 <= i < b.drop_last().len() implies b.drop_last()[i] != c by {
            assert(b.drop_last()[i] == b[i]);
        }
        lemma_last_index_after(a, b.drop_last(), c);
    } else {
        assert(a + b =~= a);
    }
}

/// The index of the last occurrence of `c` in `s`, or -1.
pub open spec fn last_index_of(s: Seq<char>, c: char) -> int
    decreases s.len(),
{
    if s.len() == 0 {
        -1
    } else if s.last() == c {
        s.len() - 1
    } else {
        last_index_of(s.drop_last(), c)
    }
}

/// A file's extension, as `Path::extension` finds it: what follows the last
/// dot, where that dot is not the file name's first character (and the name
/// is not `..`).
pub open spec fn file_extension(file_name: Seq<char>) -> Option<Seq<char>> {
    let dot = last_index_of(file_name, '.');
    if file_name == ".."@ || dot <= 0 {
        None
    } else {
        Some(file_name.subrange(dot + 1, file_name.len() as int))
    }
}

/// A file of the action folder is loaded as a script when its extension is
/// `lua` or `luau`.
pub open spec fn is_gm_script_file(file_name: Seq<char>) -> bool {
    file_extension(file_name) == Some("lua"@) || file_extension(file_name) == Some("luau"@)
}

proof fn lemma_last_index_step(s: Seq<char>, c: char, i: int)
    requires
        0 <= i < s.len(),
    ensures
        last_index_of(s.take(i + 1), c) == (if s[i] == c { i } else { last_index_of(s.take(i), c) }),
        -1 <= last_index_of(s.take(i), c) < i,
    decreases i,
{
    assert(s.take(i + 1).drop_last() =~= s.take(i));
    assert(s.take(i + 1).last() == s[i]);
    if i > 0 {
        lemma_last_index_step(s, c, i - 1);
    }
}

/// The index of the last dot in `file_name`, or -1.
fn last_dot(file_name: &str) -> (dot: isize)
    requires
        file_name@.len() <= isize::MAX,
    ensures
        dot == last_index_of(file_name@, '.'),
        -1 <= dot < file_name@.len(),
{
    let n = file_name.unicode_len();
    let mut dot: isize = -1;
    let mut i: usize = 0;
    assert(file_name@.take(0) =~= Seq::<char>::empty());
    while i < n
        invariant
            n == file_name@.len(),
            n <= isize::MAX,
            i <= n,
            -1 <= dot < i,
            dot == last_index_of(file_name@.take(i as int), '.'),
        decreases n - i,
    {
        proof {
            lemma_last_index_step(file_name@, '.', i as int);
        }
        if file_name.get_char(i) == '.' {
            dot = i as isize;
        }
        i = i + 1;
    }
    assert(file_name@.take(n as int) =~= file_name@);
    dot
}

/// The asset path of a file of the action folder that is a script
/// (`lua/GMActions/` and the file name), or `None` for any other file.
pub fn gm_action_script_path(file_name: &str) -> (path: Option<String>)
    requires
        file_name@.len() <= isize::MAX,
    ensures
        path is Some <==> is_gm_script_file(file_name@),
        path matches Some(p) ==> p@ == "lua/GMActions/"@ + file_name@,
{
    let n = file_name.unicode_len();
    let dot = last_dot(file_name);
    if str_eq(file_name, "..") || dot <= 0 {
        return None;
    }
    let extension = file_name.substring_char((dot + 1) as usize, n);
    assert(file_extension(file_name@) == Some(extension@));
    if str_eq(extension, "lua") || str_eq(extension, "luau") {
        let mut path = String::from_str("lua/GMActions/");
        path.append(file_name);
        Some(path)
    } else {
        None
    }
}

} // verus!
