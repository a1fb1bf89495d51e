//! The two hash maps of bevy that hold the template database. Rust code
//! cannot see inside them, so each operation that the database uses is a
//! trusted wrapper around one method of `bevy::utils::HashMap` (hashbrown's
//! `HashMap`), with a contract stated over the map's contents.
use bevy::utils::HashMap;
use crate::plugins::database_manager::Template;
use vstd::prelude::*;

verus! {

/// The templates of one library, keyed by template name.
#[verifier::external_body]
pub struct TemplateLibrary {
    templates: HashMap<String, Template>,
}

/// What a library holds: for each key, the name of the template stored under it.
pub uninterp spec fn library_entries(library: TemplateLibrary) -> Map<Seq<char>, Seq<char>>;

impl View for TemplateLibrary {
    type V = Map<Seq<char>, Seq<char>>;

    open spec fn view(&self) -> Map<Seq<char>, Seq<char>> {
        library_entries(*self)
    }
}

impl TemplateLibrary {
    /// `HashMap::default`: a map with no entries.
    #[verifier::external_body]
    pub(crate) fn new() -> (library: TemplateLibrary)
        ensures
            library_entries(library).dom().is_empty(),
    {
        TemplateLibrary { templates: HashMap::default() }
    }

    /// `HashMap::contains_key`: whether some entry has the key `name`.
    #[verifier::external_body]
    pub(crate) fn contains_key(&self, name: &str) -> (found: bool)
        ensures
            found == library_entries(*self).dom().contains(name@),
    {
        self.templates.contains_key(name)
    }

    /// `HashMap::get`: the template stored under `name`, if any.
    #[verifier::external_body]
    pub(crate) fn get(&self, name: &str) -> (template: Option<&Template>)
        ensures
            template is Some <==> library_entries(*self).dom().contains(name@),
            template matches Some(t) ==> t.name@ == library_entries(*self)[name@],
    {
        self.templates.get(name)
    }

    /// `HashMap::insert`: stores `template` under `name`, replacing and
    /// handing back what was stored there before.
    #[verifier::external_body]
    pub(crate) fn insert(&mut self, name: String, template: Template) -> (previous: Option<Template>)
        ensures
            library_entries(*final(self)) == library_entries(*old(self)).insert(name@, template.name@),
            previous is Some <==> library_entries(*old(self)).dom().contains(name@),
            previous matches Some(t) ==> t.name@ == library_entries(*old(self))[name@],
    {
        self.templates.insert(name, template)
    }

    /// `HashMap::keys`: every key once, in the map's own order, which these
    /// contracts leave open (it depends on the hasher's seed).
    #[verifier::external_body]
    pub(crate) fn keys(&self) -> (names: Vec<String>)
        ensures
            names@.map_values(|s: String| s@).no_duplicates(),
            names@.map_values(|s: String| s@).to_set() == library_entries(*self).dom(),
    {
        self.templates.keys().cloned().collect()
    }
}

/// All template libraries, keyed by library name.
#[verifier::external_body]
pub struct GameDatabase {
    templates: HashMap<String, TemplateLibrary>,
}

/// What the database holds: for each library name, that library's entries.
pub uninterp spec fn database_entries(database: GameDatabase) -> Map<Seq<char>, Map<Seq<char>, Seq<char>>>;

impl View for GameDatabase {
    type V = Map<Seq<char>, Map<Seq<char>, Seq<char>>>;

    open spec fn view(&self) -> Map<Seq<char>, Map<Seq<char>, Seq<char>>> {
        database_entries(*self)
    }
}

impl GameDatabase {
    /// `HashMap::default`: a database with no library.
    #[verifier::external_body]
    pub(crate) fn new() -> (database: GameDatabase)
        ensures
            database_entries(database).dom().is_empty(),
    {
        GameDatabase { templates: HashMap::default() }
    }

    /// `HashMap::get`: the library stored under `name`, if any.
    #[verifier::external_body]
    pub(crate) fn get(&self, name: &str) -> (library: Option<&TemplateLibrary>)
        ensures
            library is Some <==> database_entries(*self).dom().contains(name@),
            library matches Some(l) ==> library_entries(*l) == database_entries(*self)[name@],
    {
        self.templates.get(name)
    }

    /// `HashMap::remove`: takes the library stored under `name` out of the map.
    #[verifier::external_body]
    pub(crate) fn remove(&mut self, name: &str) -> (library: Option<TemplateLibrary>)
        ensures
            database_entries(*final(self)) == database_entries(*old(self)).remove(name@),
            library is Some <==> database_entries(*old(self)).dom().contains(name@),
            library matches Some(l) ==> library_entries(l) == database_entries(*old(self))[name@],
    {
        self.templates.remove(name)
    }

    /// `HashMap::insert`: stores `library` under `name`, replacing and handing
    /// back what was stored there before.
    #[verifier::external_body]
    pub(crate) fn insert(&mut self, name: String, library: TemplateLibrary) -> (previous: Option<TemplateLibrary>)
        ensures
            database_entries(*final(self)) == database_entries(*old(self)).insert(name@, library_entries(library)),
            previous is Some <==> database_entries(*old(self)).dom().contains(name@),
            previous matches Some(l) ==> library_entries(l) == database_entries(*old(self))[name@],
    {
        self.templates.insert(name, library)
    }

    /// `HashMap::keys`: every library name once, in the map's own order, which
    /// these contracts leave open (it depends on the hasher's seed).
    #[verifier::external_body]
    pub(crate) fn keys(&self) -> (names: Vec<String>)
        ensures
            names@.map_values(|s: String| s@).no_duplicates(),
            names@.map_values(|s: String| s@).to_set() == database_entries(*self).dom(),
    {
        self.templates.keys().cloned().collect()
    }
}

} // verus!
