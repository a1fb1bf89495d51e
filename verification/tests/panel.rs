use space_gm::plugins::database_manager::GameDatabase;
use space_gm::plugins::gm_action_manager::GMActions;
use space_gm::ui::gm_ui::{command_cells, template_grid, SelectedTab};

#[test]
fn first_library_opens_when_none_is_open() {
    let mut db = GameDatabase::default();
    let mut tab = SelectedTab::default();
    tab.open_first_if_none(&db);
    assert!(tab.name.is_none());
    db.add_template("ships".to_string(), "corvette".to_string());
    tab.open_first_if_none(&db);
    assert_eq!(tab.name.as_deref(), Some("ships"));
    db.add_template("mines".to_string(), "mine".to_string());
    tab.open("mines".to_string());
    tab.open_first_if_none(&db);
    assert_eq!(tab.name.as_deref(), Some("mines"));
    assert!(tab.is_open("mines"));
    assert!(!tab.is_open("ships"));
}

#[test]
fn template_grid_fills_nine_cells_then_blanks() {
    let mut db = GameDatabase::default();
    for n in ["a", "b", "c", "d"] {
        db.add_template("ships".to_string(), n.to_string());
    }
    let tab = SelectedTab { name: Some("ships".to_string()) };
    let cells = template_grid(&db, &tab).unwrap();
    assert_eq!(cells.len(), 9);
    let mut shown: Vec<String> = cells[..4].iter().map(|c| c.clone().unwrap()).collect();
    shown.sort();
    assert_eq!(shown, vec!["a", "b", "c", "d"]);
    assert!(cells[4..].iter().all(|c| c.is_none()));
}

#[test]
fn template_grid_shows_at_most_nine() {
    let mut db = GameDatabase::default();
    for i in 0..12 {
        db.add_template("big".to_string(), format!("t{i}"));
    }
    let tab = SelectedTab { name: Some("big".to_string()) };
    let cells = template_grid(&db, &tab).unwrap();
    assert_eq!(cells.len(), 9);
    let mut shown: Vec<String> = cells.iter().map(|c| c.clone().unwrap()).collect();
    shown.sort();
    shown.dedup();
    assert_eq!(shown.len(), 9);
}

#[test]
fn no_grid_without_open_existing_tab() {
    let mut db = GameDatabase::default();
    db.add_template("ships".to_string(), "corvette".to_string());
    assert!(template_grid(&db, &SelectedTab::default()).is_none());
    assert!(template_grid(&db, &SelectedTab { name: Some("stations".to_string()) }).is_none());
}

#[test]
fn command_row_shows_first_three_commands() {
    let mut actions = GMActions::default();
    assert_eq!(command_cells(&actions), vec![None, None, None]);
    actions.register("spawn".to_string());
    assert_eq!(command_cells(&actions), vec![Some("spawn".to_string()), None, None]);
    for c in ["delete", "move", "scan"] {
        actions.register(c.to_string());
    }
    assert_eq!(
        command_cells(&actions),
        vec![Some("spawn".to_string()), Some("delete".to_string()), Some("move".to_string())]
    );
}
