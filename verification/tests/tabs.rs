use zoha::ui::terminal::format_label;
use zoha::ui::terminal::ZohaTerminal;
use zoha::ui::registry::move_target;
use zoha::ui::registry::TabError;
use zoha::ui::registry::Terminals;

fn numbers(terminals: &Terminals) -> Vec<u64> {
    let mut out = Vec::new();
    let mut position = 0;
    while let Some(term) = terminals.lookup_by_position(position) {
        out.push(term.tab_counter);
        position += 1;
    }
    out
}

fn positions(terminals: &Terminals) -> Vec<u32> {
    let mut out = Vec::new();
    let mut position = 0;
    while let Some(term) = terminals.lookup_by_position(position) {
        out.push(term.position);
        position += 1;
    }
    out
}

fn labels(terminals: &Terminals) -> Vec<String> {
    let mut out = Vec::new();
    let mut position = 0;
    while let Some(term) = terminals.lookup_by_position(position) {
        out.push(term.label.clone());
        position += 1;
    }
    out
}

fn registry_of(count: u64) -> Terminals {
    let mut terminals = Terminals::new(None);
    for number in 1..=count {
        let at = terminals.len();
        terminals
            .insert_at(at, ZohaTerminal::with_number(number, None, None))
            .unwrap();
    }
    terminals
}

#[test]
fn label_without_location() {
    assert_eq!(format_label(7, 0, None, None), "[1/7]");
    assert_eq!(format_label(12, 9, None, Some(5)), "[10/12]");
    assert_eq!(format_label(u64::MAX, u32::MAX, None, None), "[4294967296/18446744073709551615]");
}

#[test]
fn label_with_whole_location() {
    assert_eq!(format_label(3, 1, Some("/tmp"), None), "[2] - 3@/tmp");
    assert_eq!(format_label(3, 1, Some("/tmp"), Some(4)), "[2] - 3@/tmp");
    assert_eq!(format_label(3, 1, Some("/tmp"), Some(-4)), "[2] - 3@/tmp");
    assert_eq!(format_label(3, 1, Some(""), Some(2)), "[2] - 3@");
}

#[test]
fn label_truncation_keeps_the_end_for_a_positive_limit() {
    let hint = "/home/user/projects/zoha/src";
    assert_eq!(format_label(1, 0, Some(hint), Some(10)), "[1] - 1@s/zoha/src");
}

#[test]
fn label_truncation_keeps_the_start_for_a_negative_limit() {
    let hint = "/home/user/projects/zoha/src";
    assert_eq!(format_label(1, 0, Some(hint), Some(-10)), "[1] - 1@/home/user");
    assert_eq!(format_label(1, 0, Some(hint), Some(-128)), "[1] - 1@/home/user/projects/zoha/src");
}

#[test]
fn label_with_limit_zero_shows_the_whole_location() {
    assert_eq!(format_label(5, 2, Some("/var/log"), Some(0)), "[3] - 5@/var/log");
}

#[test]
fn label_truncation_counts_characters() {
    assert_eq!(format_label(1, 0, Some("/più/façade"), Some(6)), "[1] - 1@façade");
    assert_eq!(format_label(1, 0, Some("/più/façade"), Some(-4)), "[1] - 1@/più");
}

#[test]
fn insert_at_shifts_later_tabs_up() {
    let mut terminals = registry_of(3);
    terminals
        .insert_at(1, ZohaTerminal::with_number(9, None, None))
        .unwrap();
    assert_eq!(numbers(&terminals), vec![1, 9, 2, 3]);
    assert_eq!(positions(&terminals), vec![0, 1, 2, 3]);
    assert_eq!(labels(&terminals), vec!["[1/1]", "[2/9]", "[3/2]", "[4/3]"]);
}

#[test]
fn insert_at_past_the_end_is_refused() {
    let mut terminals = registry_of(2);
    let refused = terminals.insert_at(3, ZohaTerminal::with_number(9, None, None));
    assert_eq!(refused, Err(TabError::PositionOutOfRange));
    assert_eq!(numbers(&terminals), vec![1, 2]);
}

#[test]
fn removal_reindexes_the_later_tabs() {
    let mut terminals = registry_of(3);
    let taken = terminals.remove(0).unwrap();
    assert_eq!(taken.tab_counter, 1);
    assert_eq!(numbers(&terminals), vec![2, 3]);
    assert_eq!(positions(&terminals), vec![0, 1]);
    assert_eq!(labels(&terminals), vec!["[1/2]", "[2/3]"]);
}

#[test]
fn removal_out_of_range_is_refused() {
    let mut terminals = registry_of(3);
    assert!(matches!(terminals.remove(3), Err(TabError::PositionOutOfRange)));
    assert_eq!(numbers(&terminals), vec![1, 2, 3]);
}

#[test]
fn reorder_rotates_towards_a_later_place() {
    let mut terminals = registry_of(4);
    terminals.reorder(0, 2).unwrap();
    assert_eq!(numbers(&terminals), vec![2, 3, 1, 4]);
    assert_eq!(positions(&terminals), vec![0, 1, 2, 3]);
    assert_eq!(labels(&terminals), vec!["[1/2]", "[2/3]", "[3/1]", "[4/4]"]);
}

#[test]
fn reorder_rotates_towards_an_earlier_place() {
    let mut terminals = registry_of(4);
    terminals.reorder(3, 1).unwrap();
    assert_eq!(numbers(&terminals), vec![1, 4, 2, 3]);
    assert_eq!(positions(&terminals), vec![0, 1, 2, 3]);
}

#[test]
fn reorder_to_the_same_place_changes_nothing() {
    let mut terminals = registry_of(3);
    terminals.reorder(1, 1).unwrap();
    assert_eq!(numbers(&terminals), vec![1, 2, 3]);
    assert_eq!(positions(&terminals), vec![0, 1, 2]);
}

#[test]
fn reorder_out_of_range_is_refused() {
    let mut terminals = registry_of(3);
    assert_eq!(terminals.reorder(0, 3), Err(TabError::PositionOutOfRange));
    assert_eq!(terminals.reorder(3, 0), Err(TabError::PositionOutOfRange));
    assert_eq!(numbers(&terminals), vec![1, 2, 3]);
}

#[test]
fn insert_then_remove_restores_the_registry() {
    let mut terminals = Terminals::new(Some(4));
    for (number, dir) in [(1, "/a/long/way"), (2, "/b"), (3, "/c/d/e/f")] {
        let at = terminals.len();
        let term = ZohaTerminal::with_number(number, Some(dir.to_string()), Some(4));
        terminals.insert_at(at, term).unwrap();
    }
    let before = (numbers(&terminals), positions(&terminals), labels(&terminals));
    terminals
        .insert_at(1, ZohaTerminal::with_number(4, None, Some(4)))
        .unwrap();
    assert_eq!(numbers(&terminals), vec![1, 4, 2, 3]);
    let taken = terminals.remove(1).unwrap();
    assert_eq!(taken.tab_counter, 4);
    let after = (numbers(&terminals), positions(&terminals), labels(&terminals));
    assert_eq!(before, after);
    assert_eq!(after.2, vec!["[1] - 1@/way", "[2] - 2@/b", "[3] - 3@/e/f"]);
}

#[test]
fn lookups_find_what_is_there() {
    let mut terminals = registry_of(4);
    terminals.reorder(0, 3).unwrap();
    assert_eq!(terminals.lookup_by_identity(1), Some(3));
    assert_eq!(terminals.lookup_by_identity(2), Some(0));
    assert_eq!(terminals.lookup_by_identity(5), None);
    assert_eq!(terminals.lookup_by_position(3).map(|t| t.tab_counter), Some(1));
    assert!(terminals.lookup_by_position(4).is_none());
    assert_eq!(terminals.len(), 4);
    assert!(!terminals.is_empty());
    assert!(Terminals::new(None).is_empty());
}

#[test]
fn move_forward_wraps_to_the_first_place() {
    assert_eq!(move_target(0, 3, true), 1);
    assert_eq!(move_target(2, 3, true), 0);
    let mut terminals = registry_of(3);
    assert_eq!(terminals.move_directional(2, true), Ok(0));
    assert_eq!(numbers(&terminals), vec![3, 1, 2]);
}

#[test]
fn move_backward_from_the_first_place_targets_one_past_the_end() {
    assert_eq!(move_target(2, 3, false), 1);
    assert_eq!(move_target(0, 3, false), 3);
    let mut terminals = registry_of(3);
    assert_eq!(terminals.move_directional(0, false), Err(TabError::PositionOutOfRange));
    assert_eq!(numbers(&terminals), vec![1, 2, 3]);
    assert_eq!(terminals.move_directional(1, false), Ok(0));
    assert_eq!(numbers(&terminals), vec![2, 1, 3]);
}

#[test]
fn move_in_an_empty_registry_is_reported() {
    let mut terminals = Terminals::new(None);
    assert_eq!(terminals.move_directional(0, true), Err(TabError::EmptyRegistryOperation));
    let mut terminals = registry_of(2);
    assert_eq!(terminals.move_directional(2, true), Err(TabError::PositionOutOfRange));
}

#[test]
fn a_new_working_directory_refreshes_the_label() {
    let mut term = ZohaTerminal::with_number(2, None, Some(3));
    assert_eq!(term.label, "[1/2]");
    term.set_cwd(Some("/srv/data".to_string()), Some(3));
    assert_eq!(term.label, "[1] - 2@ata");
    assert_eq!(term.get_cwd(), Some("/srv/data".to_string()));
    term.set_label(4, Some(-3));
    assert_eq!(term.position, 4);
    assert_eq!(term.label, "[5] - 2@/sr");
}
