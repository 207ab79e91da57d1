use undo_redo::{CountriesWithUndoRedo, Country, Replay};

fn country(name: &str, continent: &str, population: usize) -> Country {
    Country { name: name.to_string(), continent: continent.to_string(), population }
}

#[test]
fn scenario_remove_undo_redo_ends_with_first_record() {
    let a = country("Mexico", "North America", 130_000_000);
    let b = country("Canada", "North America", 40_000_000);
    let mut cu = CountriesWithUndoRedo::new();
    cu.add_country(a.clone());
    cu.add_country(b.clone());
    cu.remove_country();
    assert_eq!(cu.countries(), &vec![a.clone()]);
    assert_eq!(cu.undo(), Replay::Remove);
    assert_eq!(cu.countries(), &vec![a.clone(), b.clone()]);
    assert_eq!(cu.redo(), Replay::Remove);
    assert_eq!(cu.countries(), &vec![a]);
}

#[test]
fn scenario_remove_on_empty_collection() {
    let mut cu = CountriesWithUndoRedo::new();
    cu.remove_country();
    assert_eq!(cu.countries(), &Vec::<Country>::new());
    assert_eq!(cu.undo_history().len(), 1);
    assert!(!cu.undo_history().can_undo());
}

#[test]
fn scenario_new_edit_after_undo_discards_redo() {
    let a = country("Mexico", "North America", 130_000_000);
    let b = country("Canada", "North America", 40_000_000);
    let c = country("Austria", "Europe", 8_000_000);
    let mut cu = CountriesWithUndoRedo::new();
    cu.add_country(a.clone());
    cu.add_country(b);
    assert_eq!(cu.undo(), Replay::Insert);
    assert_eq!(cu.countries(), &vec![a.clone()]);
    cu.add_country(c.clone());
    assert_eq!(cu.redo(), Replay::Nothing);
    assert_eq!(cu.countries(), &vec![a, c]);
}

#[test]
fn scenario_driver_run() {
    let c1 = country("Mexico", "North America", 130_000_000);
    let c2 = country("Canada", "North America", 40_000_000);
    let c3 = country("Austria", "Europe", 8_000_000);
    let c4 = country("China", "Asia", 1_400_000_000);
    let c5 = country("Argentina", "South America", 89_000_000);
    let mut cu = CountriesWithUndoRedo::new();
    cu.add_country(c1);
    cu.remove_country();
    cu.add_country(c2.clone());
    cu.add_country(c3.clone());
    cu.add_country(c4.clone());
    cu.add_country(c5.clone());
    assert_eq!(cu.undo(), Replay::Insert);
    assert_eq!(cu.countries(), &vec![c2.clone(), c3.clone(), c4.clone()]);
    assert_eq!(cu.redo(), Replay::Insert);
    assert_eq!(cu.countries(), &vec![c2, c3, c4, c5]);
    assert_eq!(cu.undo_history().len(), 13);
    assert_eq!(cu.undo_history().current_action(), 12);
    assert_eq!(cu.undo_history().max_action(), 12);
}
