//! The board: making, moving and deleting cards, and adding and removing columns.

use clicky::domain::Board;
use clicky::domain::Card;
use clicky::domain::Column;

#[test]
fn board_test_board_creation() {
    let id = "myproject".to_string();
    let name = "My Project".to_string();

    let board = Board::new(id.clone(), name.clone());

    assert_eq!(board.id, id);
    assert_eq!(board.name, name);
    assert_eq!(board.card_id_prefix, "MYP");
    assert_eq!(board.columns.len(), 3);
    assert_eq!(board.next_card_number, 1);
}

#[test]
fn board_tests_test_board_creation() {
    let id = "myproject".to_string();
    let name = "My Project".to_string();

    let board = Board::new(id.clone(), name.clone());

    assert_eq!(board.id, id);
    assert_eq!(board.name, name);
    assert_eq!(board.card_id_prefix, "MYP");
    assert_eq!(board.columns.len(), 3);
    assert_eq!(board.next_card_number, 1);
}

#[test]
fn board_test_generate_prefix() {
    assert_eq!(Board::generate_prefix("myproject"), "MYP");
    assert_eq!(Board::generate_prefix("my-project"), "MYP");
    assert_eq!(Board::generate_prefix("my_project_123"), "MYP");
    assert_eq!(Board::generate_prefix("ab"), "AB");
}

#[test]
fn board_tests_test_generate_prefix() {
    assert_eq!(Board::generate_prefix("myproject"), "MYP");
    assert_eq!(Board::generate_prefix("my-project"), "MYP");
    assert_eq!(Board::generate_prefix("my_project_123"), "MYP");
    assert_eq!(Board::generate_prefix("ab"), "AB");
}

#[test]
fn board_test_create_card() {
    let mut board = Board::new("test".to_string(), "Test".to_string());

    let card_id = board.create_card(
        "Test Task".to_string(),
        Some("Description".to_string()),
        Some("Alice".to_string()),
        None,
    );

    assert_eq!(card_id, "TES-001");
    assert_eq!(board.cards.len(), 1);
    assert_eq!(board.next_card_number, 2);

    let card = board.get_card(&card_id).unwrap();
    assert_eq!(card.title, "Test Task");
    assert_eq!(card.description, Some("Description".to_string()));
    assert_eq!(card.assignee, Some("Alice".to_string()));

    let todo_column = board.columns.iter().find(|c| c.id == "todo").unwrap();
    assert!(todo_column.has_card(&card_id));
}

#[test]
fn board_tests_test_create_card() {
    let mut board = Board::new("test".to_string(), "Test".to_string());

    let card_id = board.create_card(
        "Test Task".to_string(),
        Some("Description".to_string()),
        Some("Alice".to_string()),
        None,
    );

    assert_eq!(card_id, "TES-001");
    assert_eq!(board.cards.len(), 1);
    assert_eq!(board.next_card_number, 2);

    let card = board.get_card(&card_id).unwrap();
    assert_eq!(card.title, "Test Task");
    assert_eq!(card.description, Some("Description".to_string()));
    assert_eq!(card.assignee, Some("Alice".to_string()));

    let todo_column = board.columns.iter().find(|c| c.id == "todo").unwrap();
    assert!(todo_column.has_card(&card_id));
}

#[test]
fn board_test_move_card() {
    let mut board = Board::new("test".to_string(), "Test".to_string());
    let card_id = board.create_card("Task".to_string(), None, None, None);

    let success = board.move_card(&card_id, "in_progress");

    assert!(success);
    let card = board.get_card(&card_id).unwrap();
    assert_eq!(card.column_id, "in_progress");

    let todo_column = board.columns.iter().find(|c| c.id == "todo").unwrap();
    assert!(!todo_column.has_card(&card_id));

    let progress_column = board
        .columns
        .iter()
        .find(|c| c.id == "in_progress")
        .unwrap();
    assert!(progress_column.has_card(&card_id));
}

#[test]
fn board_tests_test_move_card() {
    let mut board = Board::new("test".to_string(), "Test".to_string());
    let card_id = board.create_card("Task".to_string(), None, None, None);

    let success = board.move_card(&card_id, "in_progress");

    assert!(success);
    let card = board.get_card(&card_id).unwrap();
    assert_eq!(card.column_id, "in_progress");

    let todo_column = board.columns.iter().find(|c| c.id == "todo").unwrap();
    assert!(!todo_column.has_card(&card_id));

    let progress_column = board
        .columns
        .iter()
        .find(|c| c.id == "in_progress")
        .unwrap();
    assert!(progress_column.has_card(&card_id));
}

#[test]
fn board_test_delete_card() {
    let mut board = Board::new("test".to_string(), "Test".to_string());
    let card_id = board.create_card("Task".to_string(), None, None, None);

    let deleted = board.delete_card(&card_id);

    assert!(deleted);
    assert!(board.get_card(&card_id).is_none());

    let todo_column = board.columns.iter().find(|c| c.id == "todo").unwrap();
    assert!(!todo_column.has_card(&card_id));
}

#[test]
fn board_tests_test_delete_card() {
    let mut board = Board::new("test".to_string(), "Test".to_string());
    let card_id = board.create_card("Task".to_string(), None, None, None);

    let deleted = board.delete_card(&card_id);

    assert!(deleted);
    assert!(board.get_card(&card_id).is_none());

    let todo_column = board.columns.iter().find(|c| c.id == "todo").unwrap();
    assert!(!todo_column.has_card(&card_id));
}

/// Checks by hand what a consistent board is: columns and cards have distinct identifiers,
/// every card names a column of the board, and each column lists exactly its own cards,
/// each once.
fn assert_consistent(board: &Board) {
    assert!(!board.columns.is_empty());
    for (i, column) in board.columns.iter().enumerate() {
        for other in &board.columns[i + 1..] {
            assert_ne!(column.id, other.id);
        }
        for (j, card_id) in column.cards.iter().enumerate() {
            assert!(!column.cards[j + 1..].contains(card_id));
            let card = board.get_card(card_id).unwrap();
            assert_eq!(card.column_id, column.id);
        }
    }
    for (i, card) in board.cards.iter().enumerate() {
        for other in &board.cards[i + 1..] {
            assert_ne!(card.id, other.id);
        }
        let holders: Vec<&Column> =
            board.columns.iter().filter(|c| c.id == card.column_id).collect();
        assert_eq!(holders.len(), 1);
        let listed = holders[0].cards.iter().filter(|id| **id == card.id).count();
        assert_eq!(listed, 1);
        let elsewhere = board
            .columns
            .iter()
            .filter(|c| c.id != card.column_id && c.cards.contains(&card.id))
            .count();
        assert_eq!(elsewhere, 0);
    }
}

fn column<'a>(board: &'a Board, id: &str) -> &'a Column {
    board.columns.iter().find(|c| c.id == id).unwrap()
}

fn column_ids(board: &Board) -> Vec<String> {
    board.columns.iter().map(|c| c.id.clone()).collect()
}

#[test]
fn a_new_board_has_the_three_default_columns() {
    let board = Board::new("demo".to_string(), "Demo".to_string());
    assert_eq!(column_ids(&board), vec!["todo", "in_progress", "done"]);
    let names: Vec<&str> = board.columns.iter().map(|c| c.name.as_str()).collect();
    assert_eq!(names, vec!["To Do", "In Progress", "Done"]);
    let orders: Vec<u32> = board.columns.iter().map(|c| c.order).collect();
    assert_eq!(orders, vec![0, 1, 2]);
    assert!(board.cards.is_empty());
    assert_eq!(board.created_at, board.updated_at);
    assert_consistent(&board);
}

#[test]
fn prefix_takes_up_to_three_letters_in_upper_case() {
    assert_eq!(Board::generate_prefix("myproject"), "MYP");
    assert_eq!(Board::generate_prefix("my-project"), "MYP");
    assert_eq!(Board::generate_prefix("my_project_123"), "MYP");
    assert_eq!(Board::generate_prefix("ab"), "AB");
    assert_eq!(Board::generate_prefix("a1b2c3d4"), "ABC");
    assert_eq!(Board::generate_prefix("x"), "X");
    assert_eq!(Board::generate_prefix("123"), "");
    assert_eq!(Board::generate_prefix(""), "");
    assert_eq!(Board::generate_prefix("éclair"), "ÉCL");
}

#[test]
fn card_numbers_have_at_least_three_digits() {
    let mut board = Board::new("test".to_string(), "Test".to_string());
    assert_eq!(board.generate_card_id(), "TES-001");
    assert_eq!(board.generate_card_id(), "TES-002");
    board.next_card_number = 9;
    assert_eq!(board.generate_card_id(), "TES-009");
    assert_eq!(board.generate_card_id(), "TES-010");
    board.next_card_number = 99;
    assert_eq!(board.generate_card_id(), "TES-099");
    assert_eq!(board.generate_card_id(), "TES-100");
    board.next_card_number = 999;
    assert_eq!(board.generate_card_id(), "TES-999");
    assert_eq!(board.generate_card_id(), "TES-1000");
    board.next_card_number = 4_294_967_294;
    assert_eq!(board.generate_card_id(), "TES-4294967294");
    assert_eq!(board.next_card_number, 4_294_967_295);
}

#[test]
fn a_board_without_letters_in_its_name_has_an_empty_prefix() {
    let mut board = Board::new("2024".to_string(), "2024".to_string());
    assert_eq!(board.card_id_prefix, "");
    assert_eq!(board.create_card("Task".to_string(), None, None, None), "-001");
}

#[test]
fn generating_an_identifier_uses_the_number_up() {
    let mut board = Board::new("test".to_string(), "Test".to_string());
    let unused = board.generate_card_id();
    assert_eq!(unused, "TES-001");
    assert_eq!(board.next_card_number, 2);
    let card_id = board.create_card("Task".to_string(), None, None, None);
    assert_eq!(card_id, "TES-002");
    assert_eq!(board.next_card_number, 3);
}

#[test]
fn the_card_number_grows_with_every_card_made_whatever_is_deleted() {
    let mut board = Board::new("test".to_string(), "Test".to_string());
    let mut made = 0;
    for round in 0..7 {
        let card_id = board.create_card(format!("Task {}", round), None, None, None);
        made += 1;
        assert_eq!(board.next_card_number, made + 1);
        if round % 2 == 0 {
            assert!(board.delete_card(&card_id));
            assert_eq!(board.next_card_number, made + 1);
        } else {
            assert!(board.move_card(&card_id, "done"));
            assert_eq!(board.next_card_number, made + 1);
        }
        assert_consistent(&board);
    }
    assert_eq!(board.next_card_number, 8);
    assert_eq!(board.cards.len(), 3);
    let next = board.create_card("One more".to_string(), None, None, None);
    assert_eq!(next, "TES-008");
}

#[test]
fn a_card_goes_to_the_column_named() {
    let mut board = Board::new("test".to_string(), "Test".to_string());
    let card_id = board.create_card("Task".to_string(), None, None, Some("done".to_string()));
    assert_eq!(board.get_card(&card_id).unwrap().column_id, "done");
    assert_eq!(column(&board, "done").cards, vec![card_id.clone()]);
    assert!(column(&board, "todo").cards.is_empty());
    assert_consistent(&board);
}

#[test]
fn a_card_made_in_a_column_that_is_not_there_is_listed_nowhere() {
    let mut board = Board::new("test".to_string(), "Test".to_string());
    let card_id = board.create_card("Task".to_string(), None, None, Some("nowhere".to_string()));
    assert_eq!(card_id, "TES-001");
    assert_eq!(board.cards.len(), 1);
    assert_eq!(board.get_card(&card_id).unwrap().column_id, "nowhere");
    for column in &board.columns {
        assert!(!column.has_card(&card_id));
    }
}

#[test]
fn move_round_trip_through_the_columns() {
    let mut board = Board::new("test".to_string(), "Test".to_string());
    let card_id = board.create_card("Task".to_string(), None, None, Some("todo".to_string()));

    assert!(board.move_card(&card_id, "in_progress"));
    assert_consistent(&board);
    assert!(board.move_card(&card_id, "done"));
    assert_consistent(&board);

    assert_eq!(board.get_card(&card_id).unwrap().column_id, "done");
    assert!(!column(&board, "todo").has_card(&card_id));
    assert!(!column(&board, "in_progress").has_card(&card_id));
    let listed = column(&board, "done").cards.iter().filter(|id| **id == card_id).count();
    assert_eq!(listed, 1);
}

#[test]
fn a_moved_card_lands_last() {
    let mut board = Board::new("test".to_string(), "Test".to_string());
    let a = board.create_card("A".to_string(), None, None, None);
    let b = board.create_card("B".to_string(), None, None, Some("done".to_string()));
    let c = board.create_card("C".to_string(), None, None, Some("done".to_string()));

    assert!(board.move_card(&a, "done"));
    assert_eq!(column(&board, "done").cards, vec![b.clone(), c.clone(), a.clone()]);

    assert!(board.move_card(&b, "done"));
    assert_eq!(column(&board, "done").cards, vec![c, a, b]);
    assert_consistent(&board);
}

#[test]
fn a_move_that_cannot_be_done_changes_nothing() {
    let mut board = Board::new("test".to_string(), "Test".to_string());
    let card_id = board.create_card("Task".to_string(), None, None, None);
    let before = board.clone();

    assert!(!board.move_card(&card_id, "nowhere"));
    assert_eq!(board, before);
    assert!(!board.move_card("TES-999", "done"));
    assert_eq!(board, before);
    assert!(!board.move_card("TES-999", "nowhere"));
    assert_eq!(board, before);
}

#[test]
fn deleting_a_card_that_is_not_there_changes_nothing() {
    let mut board = Board::new("test".to_string(), "Test".to_string());
    board.create_card("Task".to_string(), None, None, None);
    let before = board.clone();

    assert!(!board.delete_card("TES-999"));
    assert_eq!(board, before);
}

#[test]
fn deleting_takes_the_card_off_board_and_column() {
    let mut board = Board::new("test".to_string(), "Test".to_string());
    let a = board.create_card("A".to_string(), None, None, None);
    let b = board.create_card("B".to_string(), None, None, None);
    let c = board.create_card("C".to_string(), None, None, None);

    assert!(board.delete_card(&b));

    let left: Vec<&str> = board.cards.iter().map(|card| card.id.as_str()).collect();
    assert_eq!(left, vec![a.as_str(), c.as_str()]);
    assert_eq!(column(&board, "todo").cards, vec![a, c]);
    assert_consistent(&board);
}

#[test]
fn a_card_can_be_changed_in_place() {
    let mut board = Board::new("test".to_string(), "Test".to_string());
    let card_id = board.create_card("Task".to_string(), None, None, None);

    board.get_card_mut(&card_id).unwrap().set_title("Changed".to_string());

    assert_eq!(board.get_card(&card_id).unwrap().title, "Changed");
    assert!(board.get_card_mut("TES-999").is_none());
}

#[test]
fn cards_of_a_column_come_in_the_order_of_the_board() {
    let mut board = Board::new("test".to_string(), "Test".to_string());
    let a = board.create_card("A".to_string(), None, None, None);
    let b = board.create_card("B".to_string(), None, None, Some("done".to_string()));
    let c = board.create_card("C".to_string(), None, None, None);
    board.columns[0].move_card_up(&c);
    assert_eq!(column(&board, "todo").cards, vec![c.clone(), a.clone()]);

    let todo: Vec<&Card> = board.get_cards_in_column("todo");
    let ids: Vec<&str> = todo.iter().map(|card| card.id.as_str()).collect();
    assert_eq!(ids, vec![a.as_str(), c.as_str()]);
    let done: Vec<&Card> = board.get_cards_in_column("done");
    assert_eq!(done.len(), 1);
    assert_eq!(done[0].id, b);
    assert!(board.get_cards_in_column("nowhere").is_empty());
}

#[test]
fn columns_are_kept_in_order_and_ties_keep_their_places() {
    let mut board = Board::new("test".to_string(), "Test".to_string());
    board.add_column("blocked".to_string(), "Blocked".to_string(), 1);
    assert_eq!(column_ids(&board), vec!["todo", "in_progress", "blocked", "done"]);

    board.add_column("backlog".to_string(), "Backlog".to_string(), 0);
    assert_eq!(column_ids(&board), vec!["todo", "backlog", "in_progress", "blocked", "done"]);

    board.add_column("archive".to_string(), "Archive".to_string(), 7);
    assert_eq!(
        column_ids(&board),
        vec!["todo", "backlog", "in_progress", "blocked", "done", "archive"]
    );
    assert!(column(&board, "blocked").cards.is_empty());
    assert_consistent(&board);
}

#[test]
fn adding_a_column_sorts_all_columns() {
    let mut board = Board::new("test".to_string(), "Test".to_string());
    board.columns.reverse();
    assert_eq!(column_ids(&board), vec!["done", "in_progress", "todo"]);

    board.add_column("blocked".to_string(), "Blocked".to_string(), 1);

    assert_eq!(column_ids(&board), vec!["todo", "in_progress", "blocked", "done"]);
}

#[test]
fn column_removal_relocates_the_cards() {
    let mut board = Board::new("test".to_string(), "Test".to_string());
    let first = board.create_card("First".to_string(), None, None, Some("in_progress".to_string()));
    let second =
        board.create_card("Second".to_string(), None, None, Some("in_progress".to_string()));

    assert!(board.remove_column("in_progress"));

    assert_eq!(column_ids(&board), vec!["todo", "done"]);
    assert_eq!(column(&board, "todo").cards, vec![first.clone(), second.clone()]);
    assert_eq!(board.get_card(&first).unwrap().column_id, "todo");
    assert_eq!(board.get_card(&second).unwrap().column_id, "todo");
    assert!(column(&board, "done").cards.is_empty());
    assert_consistent(&board);
}

#[test]
fn removing_the_first_column_relocates_to_the_second() {
    let mut board = Board::new("test".to_string(), "Test".to_string());
    let waiting = board.create_card("Waiting".to_string(), None, None, None);
    let started =
        board.create_card("Started".to_string(), None, None, Some("in_progress".to_string()));

    assert!(board.remove_column("todo"));

    assert_eq!(column_ids(&board), vec!["in_progress", "done"]);
    assert_eq!(column(&board, "in_progress").cards, vec![started, waiting.clone()]);
    assert_eq!(board.get_card(&waiting).unwrap().column_id, "in_progress");
    assert_consistent(&board);
}

#[test]
fn the_last_column_stays() {
    let mut board = Board::new("test".to_string(), "Test".to_string());
    assert!(board.remove_column("in_progress"));
    assert!(board.remove_column("done"));
    let before = board.clone();

    assert!(!board.remove_column("todo"));

    assert_eq!(board, before);
    assert_eq!(column_ids(&board), vec!["todo"]);
}

#[test]
fn removing_a_column_that_is_not_there_changes_nothing() {
    let mut board = Board::new("test".to_string(), "Test".to_string());
    board.create_card("Task".to_string(), None, None, None);
    let before = board.clone();

    assert!(!board.remove_column("nowhere"));

    assert_eq!(board, before);
}

#[test]
fn a_column_stays_where_no_other_name_is_there_to_take_its_cards() {
    let mut board = Board::new("test".to_string(), "Test".to_string());
    board.columns = vec![
        Column::new("same".to_string(), "One".to_string(), 0),
        Column::new("same".to_string(), "Two".to_string(), 1),
    ];
    let before = board.clone();

    assert!(!board.remove_column("same"));

    assert_eq!(board, before);
}

#[test]
fn the_board_stays_consistent_through_a_run_of_changes() {
    let mut board = Board::new("clicky".to_string(), "Clicky".to_string());
    let mut ids: Vec<String> = Vec::new();
    for n in 0..12u32 {
        let target = ["todo", "in_progress", "done"][(n % 3) as usize];
        ids.push(board.create_card(format!("Task {}", n), None, None, Some(target.to_string())));
        assert_consistent(&board);
    }
    for (n, card_id) in ids.iter().enumerate() {
        let target = ["done", "todo", "in_progress", "done"][n % 4];
        assert!(board.move_card(card_id, target));
        assert_consistent(&board);
        if n % 5 == 0 {
            assert!(board.delete_card(card_id));
            assert!(!board.move_card(card_id, "todo"));
            assert!(!board.delete_card(card_id));
            assert_consistent(&board);
        }
    }
    assert!(board.remove_column("done"));
    assert_consistent(&board);
    board.add_column("later".to_string(), "Later".to_string(), 5);
    assert_consistent(&board);
    assert_eq!(board.next_card_number, 13);
    assert_eq!(board.cards.len(), 9);
}
