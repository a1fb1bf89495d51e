//! The game master's panel: which library tab is open, which templates fill
//! its 3 by 3 button grid, and which commands fill the command row.
use crate::plugins::database_manager::GameDatabase;
use crate::plugins::gm_action_manager::{texts, GMActions};
use crate::script_args::str_eq;
use vstd::prelude::*;

verus! {

/// Rows and columns of the template grid.
pub const TEMPLATE_GRID_SIDE: usize = 3;

/// Buttons of the command row.
pub const COMMAND_SLOTS: usize = 3;

/// The library whose templates the panel shows.
#[derive(Clone, Debug)]
pub struct SelectedTab {
    pub name: Option<String>,
}

/// The text of an optional string.
pub open spec fn opt_text(s: Option<String>) -> Option<Seq<char>> {
    match s {
        Some(t) => Some(t@),
        None => None,
    }
}

/// The texts of a row of optional strings.
pub open spec fn cell_texts(cells: Seq<Option<String>>) -> Seq<Option<Seq<char>>> {
    cells.map_values(|c: Option<String>| opt_text(c))
}

/// `keys` lists every key of `dom` once.
pub open spec fn enumerates(keys: Seq<Seq<char>>, dom: Set<Seq<char>>) -> bool {
    keys.no_duplicates() && keys.to_set() == dom
}

/// `count` buttons filled in order with the templates of `library` stored
/// under `keys`; the buttons past the last template are empty.
pub open spec fn filled_cells(library: Map<Seq<char>, Seq<char>>, keys: Seq<Seq<char>>, count: nat) -> Seq<Option<Seq<char>>> {
    Seq::new(count, |i: int| if i < keys.len() { Some(library[keys[i]]) } else { None })
}

/// The first `count` commands, in order, then empty buttons.
pub open spec fn command_cells_of(commands: Seq<Seq<char>>, count: nat) -> Seq<Option<Seq<char>>> {
    Seq::new(count, |i: int| if i < commands.len() { Some(commands[i]) } else { None })
}

/// When every template of a library is stored under its own name (as adding
/// templates keeps it), no template shows on two buttons of the grid.
pub proof fn lemma_grid_shows_distinct_templates(
    library: Map<Seq<char>, Seq<char>>,
    keys: Seq<Seq<char>>,
    i: int,
    j: int,
)
    requires
        enumerates(keys, library.dom()),
        forall|k: Seq<char>| #[trigger] library.dom().contains(k) ==> library[k] == k,
        0 <= i < j < 9,
        filled_cells(library, keys, 9)[i] is Some,
        filled_cells(library, keys, 9)[j] is Some,
    ensures
        filled_cells(library, keys, 9)[i] != filled_cells(library, keys, 9)[j],
{
    assert(keys.to_set().contains(keys[i]));
    assert(keys.to_set().contains(keys[j]));
}

impl Default for SelectedTab {
    fn default() -> (tab: Self)
        ensures
            tab.name is None,
    {
        SelectedTab { name: None }
    }
}

impl SelectedTab {
    /// When no tab is open, opens the first library of the database (in the
    /// database's own order); an open tab stays open.
    pub fn open_first_if_none(&mut self, database: &GameDatabase)
        ensures
            old(self).name is Some ==> final(self).name == old(self).name,
            old(self).name is None && database@.dom().is_empty() ==> final(self).name is None,
            old(self).name is None && !database@.dom().is_empty() ==> (final(self).name matches Some(n)
                && database@.dom().contains(n@)),
    {
        if self.name.is_none() {
            let names = database.library_names();
            proof {
                let views = names@.map_values(|s: String| s@);
                if names@.len() > 0 {
                    assert(views.to_set().contains(views[0]));
                } else {
                    assert(views.to_set() =~= Set::empty());
                }
            }
            if names.len() > 0 {
                self.name = Some(names[0].clone());
            }
        }
    }

    /// Whether the tab of library `category` is the open one.
    pub fn is_open(&self, category: &str) -> (open: bool)
        ensures
            open == (self.name matches Some(n) && n@ == category@),
    {
        match &self.name {
            Some(n) => str_eq(n.as_str(), category),
            None => false,
        }
    }

    /// Opens the tab of library `category`.
    pub fn open(&mut self, category: String)
        ensures
            final(self).name == Some(category),
    {
        self.name = Some(category);
    }
}

/// The template buttons of the open tab: nine cells filled row by row with
/// the names of the library's templates in the library's own order, then
/// empty; `None` when no tab is open or the open library does not exist.
pub fn template_grid(database: &GameDatabase, tab: &SelectedTab) -> (grid: Option<Vec<Option<String>>>)
    ensures
        grid is Some <==> (tab.name matches Some(n) && database@.dom().contains(n@)),
        grid matches Some(cells) ==> {
            &&& cells@.len() == 9
            &&& forall|i: int| 0 <= i < 9 ==> (#[trigger] cells@[i] is Some
                <==> i < database@[tab.name->0@].dom().len())
            &&& exists|keys: Seq<Seq<char>>|
                enumerates(keys, database@[tab.name->0@].dom())
                    && cell_texts(cells@) == filled_cells(database@[tab.name->0@], keys, 9)
        },
{
    let tab_name = match &tab.name {
        Some(n) => n,
        None => return None,
    };
    let keys = match database.template_names(tab_name.as_str()) {
        Some(k) => k,
        None => return None,
    };
    let ghost library = database@[tab_name@];
    let ghost key_texts = keys@.map_values(|s: String| s@);
    proof {
        key_texts.unique_seq_to_set();
    }
    let mut cells: Vec<Option<String>> = Vec::new();
    let mut row: usize = 0;
    while row < TEMPLATE_GRID_SIDE
        invariant
            row <= TEMPLATE_GRID_SIDE,
            database@.dom().contains(tab_name@),
            library == database@[tab_name@],
            key_texts == keys@.map_values(|s: String| s@),
            key_texts.to_set() == library.dom(),
            cells@.len() == row * 3,
            cell_texts(cells@) == filled_cells(library, key_texts, (row * 3) as nat),
        decreases TEMPLATE_GRID_SIDE - row,
    {
        let mut col: usize = 0;
        while col < TEMPLATE_GRID_SIDE
            invariant
                row < TEMPLATE_GRID_SIDE,
                col <= TEMPLATE_GRID_SIDE,
                database@.dom().contains(tab_name@),
                library == database@[tab_name@],
                key_texts == keys@.map_values(|s: String| s@),
                key_texts.to_set() == library.dom(),
                cells@.len() == row * 3 + col,
                cell_texts(cells@) == filled_cells(library, key_texts, (row * 3 + col) as nat),
            decreases TEMPLATE_GRID_SIDE - col,
        {
            let idx = row * 3 + col;
            let ghost before = cells@;
            if idx < keys.len() {
                proof {
                    assert(key_texts.to_set().contains(key_texts[idx as int]));
                }
                let template = database.template(tab_name.as_str(), keys[idx].as_str());
                match template {
                    Some(t) => cells.push(Some(t.name)),
                    None => {
                        assert(false);
                        cells.push(None);
                    },
                }
            } else {
                cells.push(None);
            }
            assert(cell_texts(cells@) =~= filled_cells(library, key_texts, (idx + 1) as nat)) by {
                assert(cell_texts(before) == filled_cells(library, key_texts, idx as nat));
                assert forall|i: int| 0 <= i < idx implies #[trigger] cell_texts(cells@)[i] == cell_texts(before)[i] by {
                    assert(cells@[i] == before[i]);
                }
            }
            col = col + 1;
        }
        row = row + 1;
    }
    assert forall|i: int| 0 <= i < 9 implies (#[trigger] cells@[i] is Some <==> i < library.dom().len()) by {
        assert(cell_texts(cells@)[i] == opt_text(cells@[i]));
    }
    Some(cells)
}

/// The command buttons: the first three registered commands, in order, then
/// empty buttons.
pub fn command_cells(actions: &GMActions) -> (cells: Vec<Option<String>>)
    ensures
        cell_texts(cells@) == command_cells_of(texts(actions.command_list@), 3),
        cells@.len() == 3,
        forall|i: int| 0 <= i < 3 ==> (#[trigger] cells@[i] is Some <==> i < actions.command_list@.len()),
        forall|i: int| 0 <= i < 3 && i < actions.command_list@.len() ==> #[trigger] cells@[i] == Some(
            actions.command_list@[i],
        ),
{
    let mut cells: Vec<Option<String>> = Vec::new();
    let mut i: usize = 0;
    while i < COMMAND_SLOTS
        invariant
            i <= COMMAND_SLOTS,
            cells@.len() == i,
            cell_texts(cells@) == command_cells_of(texts(actions.command_list@), i as nat),
            forall|j: int| 0 <= j < i ==> (#[trigger] cells@[j] is Some <==> j < actions.command_list@.len()),
            forall|j: int| 0 <= j < i && j < actions.command_list@.len() ==> #[trigger] cells@[j] == Some(
                actions.command_list@[j],
            ),
        decreases COMMAND_SLOTS - i,
    {
        let ghost before = cells@;
        if i < actions.command_list.len() {
            cells.push(Some(actions.command_list[i].clone()));
        } else {
            cells.push(None);
        }
        assert(cell_texts(cells@) =~= command_cells_of(texts(actions.command_list@), (i + 1) as nat)) by {
            assert(cell_texts(cells@)[i as int] == opt_text(cells@[i as int]));
            assert forall|j: int| 0 <= j < i implies #[trigger] cell_texts(cells@)[j] == cell_texts(before)[j] by {
                assert(cells@[j] == before[j]);
            }
        }
        i = i + 1;
    }
    cells
}

} // verus!
