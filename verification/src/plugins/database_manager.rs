//! The template database that scripts fill: libraries of named templates.
use crate::script_args::{find_entry, lemma_map_entry_at, map_entry, spec_kind_name, ScriptArg};
use vstd::prelude::*;

pub use crate::plugins::template_store::{
    database_entries, library_entries, GameDatabase, TemplateLibrary,
};

verus! {

/// A template that a script has added to a library.
#[derive(Clone, Debug)]
pub struct Template {
    pub name: String,
}

/// The database's contents: library name → (template key → template name).
pub type DatabaseView = Map<Seq<char>, Map<Seq<char>, Seq<char>>>;

/// Whether a template was new to its library or replaced one of that name.
#[derive(PartialEq, Eq, Structural, Debug, Clone, Copy)]
pub enum TemplateStored {
    Added,
    Overwritten,
}

/// Which of the arguments of `add_template_to_database` had the wrong kind.
#[derive(PartialEq, Eq, Structural, Debug, Clone, Copy)]
pub enum TemplateArgErrorKind {
    /// The library name was not a string.
    LibraryNotString,
    /// The template was not a map.
    TemplateNotMap,
    /// The template's `name` entry was not a string.
    NameNotString,
}

/// A refused call of `add_template_to_database`: what was wrong, and the kind
/// of the value that was found in its place.
#[derive(Clone, Debug)]
pub struct TemplateArgError {
    pub kind: TemplateArgErrorKind,
    pub found: String,
}

/// The library `library` of `db`; a library that does not exist yet is empty.
pub open spec fn library_or_empty(db: DatabaseView, library: Seq<char>) -> Map<Seq<char>, Seq<char>> {
    if db.dom().contains(library) {
        db[library]
    } else {
        Map::empty()
    }
}

/// The name of the template stored under `name` in library `library`, if any.
pub open spec fn lookup(db: DatabaseView, library: Seq<char>, name: Seq<char>) -> Option<Seq<char>> {
    if db.dom().contains(library) && db[library].dom().contains(name) {
        Some(db[library][name])
    } else {
        None
    }
}

/// `db` after the template `name` is stored in library `library` (which is
/// made if it is missing).
pub open spec fn with_template(db: DatabaseView, library: Seq<char>, name: Seq<char>) -> DatabaseView {
    db.insert(library, library_or_empty(db, library).insert(name, name))
}

/// What adding `name` to `library` reports.
pub open spec fn stored_outcome(db: DatabaseView, library: Seq<char>, name: Seq<char>) -> TemplateStored {
    if lookup(db, library, name) is Some {
        TemplateStored::Overwritten
    } else {
        TemplateStored::Added
    }
}

/// Every template is stored under its own name.
pub open spec fn names_are_keys(db: DatabaseView) -> bool {
    forall|library: Seq<char>, name: Seq<char>|
        #[trigger] db.dom().contains(library) && #[trigger] db[library].dom().contains(name)
            ==> db[library][name] == name
}

/// The library name and template name that a script's arguments stand for, or
/// the first argument that has the wrong kind, with the kind found. A map
/// without a `name` entry has no outcome here: the game stops on it.
pub open spec fn template_args(
    template_library: ScriptArg,
    template: ScriptArg,
) -> Result<(Seq<char>, Seq<char>), (TemplateArgErrorKind, Seq<char>)> {
    match template_library {
        ScriptArg::String(library) => match template {
            ScriptArg::Table(entries) => match map_entry(entries@, "name"@) {
                Some(ScriptArg::String(name)) => Ok((library@, name@)),
                Some(other) => Err((TemplateArgErrorKind::NameNotString, spec_kind_name(other))),
                None => Err((TemplateArgErrorKind::NameNotString, Seq::empty())),
            },
            other => Err((TemplateArgErrorKind::TemplateNotMap, spec_kind_name(other))),
        },
        other => Err((TemplateArgErrorKind::LibraryNotString, spec_kind_name(other))),
    }
}

/// The arguments on which the game stops instead of answering: a library
/// name that is a string and a template map without a `name` entry.
pub open spec fn template_args_missing_name(template_library: ScriptArg, template: ScriptArg) -> bool {
    &&& template_library is String
    &&& template matches ScriptArg::Table(entries) && map_entry(entries@, "name"@) is None
}

impl Default for GameDatabase {
    fn default() -> (database: Self)
        ensures
            database@.dom().is_empty(),
    {
        GameDatabase::new()
    }
}

impl GameDatabase {
    /// Stores the template `name` in library `library`, making the library if
    /// it does not exist and replacing a template of the same name.
    pub fn add_template(&mut self, library: String, name: String) -> (stored: TemplateStored)
        ensures
            final(self)@ == with_template(old(self)@, library@, name@),
            stored == stored_outcome(old(self)@, library@, name@),
    {
        let ghost before = self@;
        let mut templates = match self.remove(library.as_str()) {
            Some(existing) => existing,
            None => TemplateLibrary::new(),
        };
        assert(templates@ == library_or_empty(before, library@));
        let overwritten = templates.contains_key(name.as_str());
        let template = Template { name: name.clone() };
        let _ = templates.insert(name, template);
        let _ = self.insert(library, templates);
        assert(self@ =~= with_template(before, library@, name@));
        if overwritten {
            TemplateStored::Overwritten
        } else {
            TemplateStored::Added
        }
    }

    /// The template stored under `name` in library `library`, if any.
    pub fn template(&self, library: &str, name: &str) -> (template: Option<Template>)
        ensures
            match lookup(self@, library@, name@) {
                None => template is None,
                Some(n) => template matches Some(t) && t.name@ == n,
            },
    {
        match self.get(library) {
            None => None,
            Some(templates) => match templates.get(name) {
                None => None,
                Some(t) => Some(Template { name: t.name.clone() }),
            },
        }
    }

    /// The names of all libraries, each once, in the database's own order.
    pub fn library_names(&self) -> (names: Vec<String>)
        ensures
            names@.map_values(|s: String| s@).no_duplicates(),
            names@.map_values(|s: String| s@).to_set() == self@.dom(),
    {
        self.keys()
    }

    /// The keys of library `library`, each once, in the library's own order;
    /// `None` if there is no such library.
    pub fn template_names(&self, library: &str) -> (names: Option<Vec<String>>)
        ensures
            names is Some <==> self@.dom().contains(library@),
            names matches Some(ns) ==> {
                &&& ns@.map_values(|s: String| s@).no_duplicates()
                &&& ns@.map_values(|s: String| s@).to_set() == self@[library@].dom()
            },
    {
        match self.get(library) {
            None => None,
            Some(templates) => Some(templates.keys()),
        }
    }
}

/// Reads a script's arguments to `add_template_to_database`: the library name
/// and the template's `name` entry, or the first argument of the wrong kind.
pub fn template_args_of(template_library: ScriptArg, template: ScriptArg) -> (parsed: Result<(String, String), TemplateArgError>)
    requires
        !template_args_missing_name(template_library, template),
    ensures
        match template_args(template_library, template) {
            Ok((l, n)) => parsed matches Ok((pl, pn)) && pl@ == l && pn@ == n,
            Err((k, f)) => parsed matches Err(e) && e.kind == k && e.found@ == f,
        },
{
    let library = match template_library {
        ScriptArg::String(library) => library,
        other => {
            return Err(TemplateArgError { kind: TemplateArgErrorKind::LibraryNotString, found: other.kind_name() });
        },
    };
    let entries = match template {
        ScriptArg::Table(entries) => entries,
        other => {
            return Err(TemplateArgError { kind: TemplateArgErrorKind::TemplateNotMap, found: other.kind_name() });
        },
    };
    match find_entry(&entries, "name") {
        Some(ScriptArg::String(name)) => Ok((library, name.clone())),
        Some(other) => Err(TemplateArgError { kind: TemplateArgErrorKind::NameNotString, found: other.kind_name() }),
        None => {
            assert(false);
            Err(TemplateArgError { kind: TemplateArgErrorKind::NameNotString, found: String::new() })
        },
    }
}

/// The function that scripts call to add a template: checks the arguments'
/// kinds and stores the template named by the template map's `name` entry in
/// the library named by `template_library`.
pub fn add_template_to_database(
    database: &mut GameDatabase,
    template_library: ScriptArg,
    template: ScriptArg,
) -> (result: Result<TemplateStored, TemplateArgError>)
    requires
        !template_args_missing_name(template_library, template),
    ensures
        match template_args(template_library, template) {
            Ok((l, n)) => {
                &&& result matches Ok(s) && s == stored_outcome(old(database)@, l, n)
                &&& final(database)@ == with_template(old(database)@, l, n)
            },
            Err((k, f)) => {
                &&& result matches Err(e) && e.kind == k && e.found@ == f
                &&& final(database)@ == old(database)@
            },
        },
{
    match template_args_of(template_library, template) {
        Ok((library, name)) => Ok(database.add_template(library, name)),
        Err(e) => Err(e),
    }
}

/// A template map's `name` entry is read wherever it stands among the
/// entries: when the entry at position `k` is the (first) one keyed `name`
/// and holds a string, the arguments stand for that library and that name;
/// when it holds anything else, the template is refused for its name, with
/// that value's kind.
pub proof fn lemma_name_entry_read_at_any_position(
    library: String,
    entries: Vec<(String, ScriptArg)>,
    k: int,
)
    requires
        0 <= k < entries@.len(),
        entries@[k].0@ == "name"@,
        forall|j: int| 0 <= j < k ==> entries@[j].0@ != "name"@,
    ensures
        entries@[k].1 matches ScriptArg::String(n) ==> (template_args(
            ScriptArg::String(library),
            ScriptArg::Table(entries),
        ) matches Ok((l, parsed)) && l == library@ && parsed == n@),
        !(entries@[k].1 is String) ==> (template_args(
            ScriptArg::String(library),
            ScriptArg::Table(entries),
        ) matches Err((kind, found)) && kind == TemplateArgErrorKind::NameNotString
            && found == spec_kind_name(entries@[k].1)),
{
    lemma_map_entry_at(entries@, "name"@, k);
}

/// The arguments are checked in order: a library name that is not a string
/// is refused as such, whatever the template; with a string library name, a
/// template that is not a map is refused as such. Each refusal names the kind
/// of the value found.
pub proof fn lemma_argument_checks_in_order(template_library: ScriptArg, template: ScriptArg)
    ensures
        !(template_library is String) ==> (template_args(template_library, template) matches Err((kind, found))
            && kind == TemplateArgErrorKind::LibraryNotString && found == spec_kind_name(template_library)),
        template_library is String && !(template is Table) ==> (template_args(template_library, template)
            matches Err((kind, found)) && kind == TemplateArgErrorKind::TemplateNotMap && found == spec_kind_name(
            template,
        )),
        template_args(template_library, template) is Ok ==> template_library is String && template is Table,
{
}

/// The stored template is the one the map names: for a string library name
/// and a map whose `name` entry holds a string, the template stored is that
/// string, in that library, whatever else the map holds.
pub proof fn lemma_named_template_is_stored(
    library: String,
    entries: Vec<(String, ScriptArg)>,
    name: String,
    db: DatabaseView,
)
    requires
        map_entry(entries@, "name"@) == Some(ScriptArg::String(name)),
    ensures
        template_args(ScriptArg::String(library), ScriptArg::Table(entries)) matches Ok((l, n))
            && l == library@ && n == name@,
        lookup(with_template(db, library@, name@), library@, name@) == Some(name@),
{
}

/// Looking up a template finds exactly what the database holds: the name
/// stored under `name` in library `library` when both exist, nothing else.
pub proof fn lemma_lookup_reads_entries(db: DatabaseView, library: Seq<char>, name: Seq<char>)
    ensures
        lookup(db, library, name) is Some <==> db.dom().contains(library) && db[library].dom().contains(name),
        lookup(db, library, name) is Some ==> lookup(db, library, name)->0 == db[library][name],
        stored_outcome(db, library, name) == TemplateStored::Added <==> !(db.dom().contains(library)
            && db[library].dom().contains(name)),
        lookup(Map::empty(), library, name) is None,
{
}

/// Adding a template to a library keeps every template that library held and
/// adds no other than `name`.
pub proof fn lemma_add_template_library_contents(db: DatabaseView, library: Seq<char>, name: Seq<char>)
    ensures
        with_template(db, library, name).dom().contains(library),
        with_template(db, library, name)[library].dom() == (if db.dom().contains(library) {
            db[library].dom()
        } else {
            Set::empty()
        }).insert(name),
        with_template(db, library, name)[library][name] == name,
        forall|other: Seq<char>| other != library && #[trigger] db.dom().contains(other) ==> with_template(
            db,
            library,
            name,
        )[other] == db[other],
{
    let lib = with_template(db, library, name)[library];
    if db.dom().contains(library) {
        assert(lib.dom() =~= db[library].dom().insert(name));
    } else {
        assert(lib.dom() =~= Set::<Seq<char>>::empty().insert(name));
    }
}

/// Reading back: right after `name` is added to `library`, looking it up
/// finds it, under its own name.
pub proof fn lemma_added_template_is_found(db: DatabaseView, library: Seq<char>, name: Seq<char>)
    ensures
        lookup(with_template(db, library, name), library, name) == Some(name),
{
}

/// Adding a template changes no other entry: every other (library, name)
/// pair looks up as before.
pub proof fn lemma_add_template_keeps_others(
    db: DatabaseView,
    library: Seq<char>,
    name: Seq<char>,
    other_library: Seq<char>,
    other_name: Seq<char>,
)
    requires
        other_library != library || other_name != name,
    ensures
        lookup(with_template(db, library, name), other_library, other_name)
            == lookup(db, other_library, other_name),
{
}

/// Adding a template never removes a library, and makes `library` exist.
pub proof fn lemma_add_template_keeps_libraries(db: DatabaseView, library: Seq<char>, name: Seq<char>)
    ensures
        with_template(db, library, name).dom() == db.dom().insert(library),
{
    assert(with_template(db, library, name).dom() =~= db.dom().insert(library));
}

/// Adding the same template twice leaves the database as adding it once.
pub proof fn lemma_add_template_idempotent(db: DatabaseView, library: Seq<char>, name: Seq<char>)
    ensures
        with_template(with_template(db, library, name), library, name) == with_template(db, library, name),
{
    let once = with_template(db, library, name);
    assert(library_or_empty(once, library).insert(name, name) =~= library_or_empty(once, library));
    assert(with_template(once, library, name) =~= once);
}

/// Every template stays stored under its own name: the empty database has
/// that property and adding a template keeps it.
pub proof fn lemma_names_are_keys_kept(db: DatabaseView, library: Seq<char>, name: Seq<char>)
    ensures
        names_are_keys(Map::empty()),
        names_are_keys(db) ==> names_are_keys(with_template(db, library, name)),
{
}

/// A second addition of a template to a library reports that it overwrote one.
pub proof fn lemma_second_add_overwrites(db: DatabaseView, library: Seq<char>, name: Seq<char>)
    ensures
        stored_outcome(with_template(db, library, name), library, name) == TemplateStored::Overwritten,
{
}

} // verus!
