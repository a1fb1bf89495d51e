use space_gm::plugins::database_manager::{
    add_template_to_database, template_args_of, GameDatabase, TemplateArgErrorKind, TemplateStored,
};
use space_gm::script_args::ScriptArg;

fn text(s: &str) -> ScriptArg {
    ScriptArg::String(s.to_string())
}

fn template_map(name: ScriptArg) -> ScriptArg {
    ScriptArg::Table(vec![("size".to_string(), ScriptArg::Integer), ("name".to_string(), name)])
}

#[test]
fn adding_a_template_makes_its_library() {
    let mut db = GameDatabase::default();
    assert!(db.library_names().is_empty());
    let r = add_template_to_database(&mut db, text("ships"), template_map(text("corvette")));
    assert_eq!(r.unwrap(), TemplateStored::Added);
    assert_eq!(db.library_names(), vec!["ships".to_string()]);
    assert_eq!(db.template("ships", "corvette").unwrap().name, "corvette");
}

#[test]
fn added_template_reads_back_and_others_stay() {
    let mut db = GameDatabase::default();
    db.add_template("ships".to_string(), "corvette".to_string());
    db.add_template("ships".to_string(), "cruiser".to_string());
    db.add_template("mines".to_string(), "mine".to_string());
    assert_eq!(db.template("ships", "corvette").unwrap().name, "corvette");
    assert_eq!(db.template("ships", "cruiser").unwrap().name, "cruiser");
    assert_eq!(db.template("mines", "mine").unwrap().name, "mine");
    assert!(db.template("mines", "corvette").is_none());
    assert!(db.template("stations", "corvette").is_none());
    let mut libs = db.library_names();
    libs.sort();
    assert_eq!(libs, vec!["mines".to_string(), "ships".to_string()]);
    let mut ships = db.template_names("ships").unwrap();
    ships.sort();
    assert_eq!(ships, vec!["corvette".to_string(), "cruiser".to_string()]);
    assert!(db.template_names("stations").is_none());
}

#[test]
fn second_add_overwrites_and_changes_nothing_else() {
    let mut db = GameDatabase::default();
    assert_eq!(db.add_template("ships".to_string(), "frigate".to_string()), TemplateStored::Added);
    assert_eq!(db.add_template("ships".to_string(), "frigate".to_string()), TemplateStored::Overwritten);
    assert_eq!(db.template_names("ships").unwrap(), vec!["frigate".to_string()]);
    assert_eq!(db.library_names(), vec!["ships".to_string()]);
}

#[test]
fn same_name_in_two_libraries_is_two_templates() {
    let mut db = GameDatabase::default();
    assert_eq!(db.add_template("a".to_string(), "x".to_string()), TemplateStored::Added);
    assert_eq!(db.add_template("b".to_string(), "x".to_string()), TemplateStored::Added);
    assert_eq!(db.template_names("a").unwrap().len(), 1);
    assert_eq!(db.template_names("b").unwrap().len(), 1);
}

#[test]
fn library_that_is_not_a_string_is_refused() {
    let mut db = GameDatabase::default();
    let r = add_template_to_database(&mut db, ScriptArg::Integer, template_map(text("corvette")));
    let e = r.unwrap_err();
    assert_eq!(e.kind, TemplateArgErrorKind::LibraryNotString);
    assert_eq!(e.found, "Integer");
    assert!(db.library_names().is_empty());
}

#[test]
fn library_check_comes_before_template_check() {
    let mut db = GameDatabase::default();
    let e = add_template_to_database(&mut db, ScriptArg::Unit, ScriptArg::List).unwrap_err();
    assert_eq!(e.kind, TemplateArgErrorKind::LibraryNotString);
    assert_eq!(e.found, "Unit");
}

#[test]
fn template_that_is_not_a_map_is_refused() {
    let mut db = GameDatabase::default();
    let e = add_template_to_database(&mut db, text("ships"), ScriptArg::List).unwrap_err();
    assert_eq!(e.kind, TemplateArgErrorKind::TemplateNotMap);
    assert_eq!(e.found, "List");
    let e = add_template_to_database(&mut db, text("ships"), text("corvette")).unwrap_err();
    assert_eq!(e.kind, TemplateArgErrorKind::TemplateNotMap);
    assert_eq!(e.found, "String");
    assert!(db.library_names().is_empty());
}

#[test]
fn template_name_that_is_not_a_string_is_refused() {
    let mut db = GameDatabase::default();
    let e = add_template_to_database(&mut db, text("ships"), template_map(ScriptArg::Bool)).unwrap_err();
    assert_eq!(e.kind, TemplateArgErrorKind::NameNotString);
    assert_eq!(e.found, "Bool");
    let e = add_template_to_database(&mut db, text("ships"), template_map(ScriptArg::Table(vec![]))).unwrap_err();
    assert_eq!(e.found, "Map");
    assert!(db.library_names().is_empty());
}

#[test]
fn arguments_are_read_from_the_name_entry() {
    let (library, name) = template_args_of(text("ships"), template_map(text("destroyer"))).unwrap();
    assert_eq!(library, "ships");
    assert_eq!(name, "destroyer");
}
