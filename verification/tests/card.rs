//! Cards: what a new card holds, and what its setters change.

use clicky::domain::Card;

#[test]
fn test_card_creation() {
    let id = "PRJ-001".to_string();
    let title = "Test Task".to_string();
    let column_id = "todo".to_string();

    let card = Card::new(id.clone(), title.clone(), column_id.clone());

    assert_eq!(card.id, id);
    assert_eq!(card.title, title);
    assert_eq!(card.column_id, column_id);
    assert!(card.description.is_none());
    assert!(card.assignee.is_none());
}

#[test]
fn test_card_move() {
    let mut card = Card::new(
        "PRJ-002".to_string(),
        "Task".to_string(),
        "todo".to_string(),
    );

    card.move_to("in_progress".to_string());

    assert_eq!(card.column_id, "in_progress");
}

#[test]
fn test_card_update_title() {
    let mut card = Card::new(
        "PRJ-003".to_string(),
        "Old Title".to_string(),
        "todo".to_string(),
    );

    card.set_title("New Title".to_string());

    assert_eq!(card.title, "New Title");
}

#[test]
fn test_card_set_assignee() {
    let mut card = Card::new(
        "PRJ-004".to_string(),
        "Task".to_string(),
        "todo".to_string(),
    );

    card.set_assignee(Some("Alice".to_string()));

    assert_eq!(card.assignee, Some("Alice".to_string()));
}

#[test]
fn a_new_card_bears_one_stamp() {
    let card = Card::new("PRJ-009".to_string(), "Task".to_string(), "todo".to_string());
    assert_eq!(card.created_at, card.updated_at);
    assert!(card.created_at.seconds > 1_600_000_000);
}

#[test]
fn setters_keep_the_rest_of_the_card() {
    let mut card = Card::new("PRJ-010".to_string(), "Task".to_string(), "todo".to_string());
    let created_at = card.created_at;

    card.set_description(Some("Details".to_string()));
    card.set_assignee(Some("Bob".to_string()));
    card.set_title("Other".to_string());
    card.move_to("done".to_string());

    assert_eq!(card.id, "PRJ-010");
    assert_eq!(card.title, "Other");
    assert_eq!(card.description, Some("Details".to_string()));
    assert_eq!(card.assignee, Some("Bob".to_string()));
    assert_eq!(card.column_id, "done");
    assert_eq!(card.created_at, created_at);

    card.set_description(None);
    card.set_assignee(None);
    assert!(card.description.is_none());
    assert!(card.assignee.is_none());
    assert_eq!(card.title, "Other");
}

#[test]
fn an_empty_title_is_not_refused_by_the_card() {
    let mut card = Card::new("PRJ-011".to_string(), "Task".to_string(), "todo".to_string());
    card.set_title(String::new());
    assert_eq!(card.title, "");
}
