//! Columns: adding, removing and reordering cards.

use clicky::domain::Column;

#[test]
fn column_test_column_creation() {
    let id = "todo".to_string();
    let name = "To Do".to_string();

    let column = Column::new(id.clone(), name.clone(), 0);

    assert_eq!(column.id, id);
    assert_eq!(column.name, name);
    assert_eq!(column.order, 0);
    assert!(column.cards.is_empty());
}

#[test]
fn column_tests_test_column_creation() {
    let id = "todo".to_string();
    let name = "To Do".to_string();

    let column = Column::new(id.clone(), name.clone(), 0);

    assert_eq!(column.id, id);
    assert_eq!(column.name, name);
    assert_eq!(column.order, 0);
    assert!(column.cards.is_empty());
}

#[test]
fn column_test_add_card() {
    let mut column = Column::new("todo".to_string(), "To Do".to_string(), 0);

    column.add_card("PRJ-001".to_string());
    column.add_card("PRJ-002".to_string());

    assert_eq!(column.cards.len(), 2);
    assert!(column.has_card("PRJ-001"));
    assert!(column.has_card("PRJ-002"));
}

#[test]
fn column_tests_test_add_card() {
    let mut column = Column::new("todo".to_string(), "To Do".to_string(), 0);

    column.add_card("PRJ-001".to_string());
    column.add_card("PRJ-002".to_string());

    assert_eq!(column.cards.len(), 2);
    assert!(column.has_card("PRJ-001"));
    assert!(column.has_card("PRJ-002"));
}

#[test]
fn column_test_add_duplicate_card() {
    let mut column = Column::new("todo".to_string(), "To Do".to_string(), 0);

    column.add_card("PRJ-001".to_string());
    column.add_card("PRJ-001".to_string()); // Duplicate

    assert_eq!(column.cards.len(), 1);
}

#[test]
fn column_tests_test_add_duplicate_card() {
    let mut column = Column::new("todo".to_string(), "To Do".to_string(), 0);

    column.add_card("PRJ-001".to_string());
    column.add_card("PRJ-001".to_string()); // Duplicate

    assert_eq!(column.cards.len(), 1);
}

#[test]
fn column_test_remove_card() {
    let mut column = Column::new("todo".to_string(), "To Do".to_string(), 0);
    column.add_card("PRJ-001".to_string());
    column.add_card("PRJ-002".to_string());

    let removed = column.remove_card("PRJ-001");

    assert!(removed);
    assert_eq!(column.cards.len(), 1);
    assert!(!column.has_card("PRJ-001"));
}

#[test]
fn column_tests_test_remove_card() {
    let mut column = Column::new("todo".to_string(), "To Do".to_string(), 0);
    column.add_card("PRJ-001".to_string());
    column.add_card("PRJ-002".to_string());

    let removed = column.remove_card("PRJ-001");

    assert!(removed);
    assert_eq!(column.cards.len(), 1);
    assert!(!column.has_card("PRJ-001"));
}

#[test]
fn column_test_remove_nonexistent_card() {
    let mut column = Column::new("todo".to_string(), "To Do".to_string(), 0);
    column.add_card("PRJ-001".to_string());

    let removed = column.remove_card("PRJ-999");

    assert!(!removed);
    assert_eq!(column.cards.len(), 1);
}

#[test]
fn column_tests_test_remove_nonexistent_card() {
    let mut column = Column::new("todo".to_string(), "To Do".to_string(), 0);
    column.add_card("PRJ-001".to_string());

    let removed = column.remove_card("PRJ-999");

    assert!(!removed);
    assert_eq!(column.cards.len(), 1);
}

#[test]
fn test_move_card_up() {
    let mut column = Column::new("todo".to_string(), "To Do".to_string(), 0);
    column.add_card("PRJ-001".to_string());
    column.add_card("PRJ-002".to_string());
    column.add_card("PRJ-003".to_string());

    let moved = column.move_card_up("PRJ-002");

    assert!(moved);
    assert_eq!(column.cards, vec!["PRJ-002", "PRJ-001", "PRJ-003"]);
}

#[test]
fn test_move_card_up_at_top() {
    let mut column = Column::new("todo".to_string(), "To Do".to_string(), 0);
    column.add_card("PRJ-001".to_string());
    column.add_card("PRJ-002".to_string());

    let moved = column.move_card_up("PRJ-001");

    assert!(!moved);
    assert_eq!(column.cards, vec!["PRJ-001", "PRJ-002"]);
}

#[test]
fn test_move_card_up_not_found() {
    let mut column = Column::new("todo".to_string(), "To Do".to_string(), 0);
    column.add_card("PRJ-001".to_string());

    let moved = column.move_card_up("PRJ-999");

    assert!(!moved);
    assert_eq!(column.cards, vec!["PRJ-001"]);
}

#[test]
fn test_move_card_down() {
    let mut column = Column::new("todo".to_string(), "To Do".to_string(), 0);
    column.add_card("PRJ-001".to_string());
    column.add_card("PRJ-002".to_string());
    column.add_card("PRJ-003".to_string());

    let moved = column.move_card_down("PRJ-002");

    assert!(moved);
    assert_eq!(column.cards, vec!["PRJ-001", "PRJ-003", "PRJ-002"]);
}

#[test]
fn test_move_card_down_at_bottom() {
    let mut column = Column::new("todo".to_string(), "To Do".to_string(), 0);
    column.add_card("PRJ-001".to_string());
    column.add_card("PRJ-002".to_string());

    let moved = column.move_card_down("PRJ-002");

    assert!(!moved);
    assert_eq!(column.cards, vec!["PRJ-001", "PRJ-002"]);
}

#[test]
fn test_move_card_down_not_found() {
    let mut column = Column::new("todo".to_string(), "To Do".to_string(), 0);
    column.add_card("PRJ-001".to_string());

    let moved = column.move_card_down("PRJ-999");

    assert!(!moved);
    assert_eq!(column.cards, vec!["PRJ-001"]);
}

#[test]
fn test_multiple_card_moves() {
    let mut column = Column::new("todo".to_string(), "To Do".to_string(), 0);
    column.add_card("PRJ-001".to_string());
    column.add_card("PRJ-002".to_string());
    column.add_card("PRJ-003".to_string());

    column.move_card_up("PRJ-003");
    column.move_card_up("PRJ-003");

    assert_eq!(column.cards, vec!["PRJ-003", "PRJ-001", "PRJ-002"]);
}


#[test]
fn reorder_scenario_on_three_cards() {
    let fresh = || {
        let mut column = Column::new("todo".to_string(), "To Do".to_string(), 0);
        column.add_card("A".to_string());
        column.add_card("B".to_string());
        column.add_card("C".to_string());
        column
    };

    let mut up = fresh();
    assert!(up.move_card_up("B"));
    assert_eq!(up.cards, vec!["B", "A", "C"]);

    let mut down = fresh();
    assert!(down.move_card_down("B"));
    assert_eq!(down.cards, vec!["A", "C", "B"]);

    let mut edge = fresh();
    assert!(!edge.move_card_up("A"));
    assert_eq!(edge.cards, vec!["A", "B", "C"]);
    assert!(!edge.move_card_down("C"));
    assert_eq!(edge.cards, vec!["A", "B", "C"]);
}

#[test]
fn adding_twice_is_adding_once() {
    let mut column = Column::new("done".to_string(), "Done".to_string(), 2);
    column.add_card("PRJ-007".to_string());
    let once = column.clone();
    column.add_card("PRJ-007".to_string());
    assert_eq!(column, once);
    assert_eq!(column.card_count(), 1);
}

#[test]
fn removing_takes_the_first_entry_only() {
    let mut column = Column::new("todo".to_string(), "To Do".to_string(), 0);
    column.cards = vec!["A".to_string(), "B".to_string(), "A".to_string()];
    assert!(column.remove_card("A"));
    assert_eq!(column.cards, vec!["B", "A"]);
}

#[test]
fn a_single_card_moves_neither_way() {
    let mut column = Column::new("todo".to_string(), "To Do".to_string(), 0);
    column.add_card("ONLY".to_string());
    assert!(!column.move_card_up("ONLY"));
    assert!(!column.move_card_down("ONLY"));
    assert_eq!(column.cards, vec!["ONLY"]);
}

#[test]
fn an_empty_column_has_no_card_to_move() {
    let mut column = Column::new("todo".to_string(), "To Do".to_string(), 0);
    assert!(!column.move_card_up("A"));
    assert!(!column.move_card_down("A"));
    assert!(!column.remove_card("A"));
    assert!(!column.has_card("A"));
    assert_eq!(column.card_count(), 0);
}

#[test]
fn moving_down_then_up_restores_the_order() {
    let mut column = Column::new("todo".to_string(), "To Do".to_string(), 0);
    column.add_card("A".to_string());
    column.add_card("B".to_string());
    column.add_card("C".to_string());
    assert!(column.move_card_down("A"));
    assert_eq!(column.cards, vec!["B", "A", "C"]);
    assert!(column.move_card_up("A"));
    assert_eq!(column.cards, vec!["A", "B", "C"]);
}
