//! The terminal interface, on a store in memory: navigation, the card form, moving and
//! deleting cards, and the keys that lead there.

use clicky::application::BoardService;
use clicky::application::CardService;
use clicky::cli::tui::app::AppError;
use clicky::cli::tui::app::Side;
use clicky::cli::tui::input::command;
use clicky::cli::tui::input::cursor_visible;
use clicky::cli::tui::input::handle_event;
use clicky::cli::tui::input::handle_key;
use clicky::cli::tui::input::Command;
use clicky::cli::tui::input::Event;
use clicky::cli::tui::input::Key;
use clicky::cli::tui::state::FormField;
use clicky::cli::tui::state::FormMode;
use clicky::cli::tui::state::InputMode;
use clicky::cli::tui::state::Selection;
use clicky::cli::tui::state::View;
use clicky::cli::tui::App;
use clicky::domain::Board;
use clicky::infrastructure::storage::BoardStorage;
use clicky::infrastructure::storage::StorageError;
use clicky::infrastructure::BoardRepository;
use std::cell::RefCell;
use std::collections::HashMap;
use std::path::Path;
use std::path::PathBuf;
use std::rc::Rc;

/// A store that keeps its boards in memory. Copies of one store share their boards.
#[derive(Clone, Default)]
struct MemoryRepository {
    boards: Rc<RefCell<HashMap<PathBuf, Board>>>,
    broken: Rc<RefCell<bool>>,
}

impl MemoryRepository {
    /// From now on every save fails.
    fn break_saving(&self) {
        *self.broken.borrow_mut() = true;
    }
}

impl BoardRepository for MemoryRepository {
    fn load(&self, path: &Path) -> Result<Board, StorageError> {
        match self.boards.borrow().get(path) {
            Some(board) => Ok(board.clone()),
            None => Err(StorageError::BoardNotFound(path.to_path_buf())),
        }
    }

    fn save(&self, board: &Board, path: &Path) -> Result<(), StorageError> {
        if *self.broken.borrow() {
            return Err(StorageError::Io("disk full".to_string()));
        }
        self.boards.borrow_mut().insert(path.to_path_buf(), board.clone());
        Ok(())
    }

    fn board_exists(&self, path: &Path) -> bool {
        self.boards.borrow().contains_key(path)
    }

    fn delete(&self, path: &Path) -> Result<(), StorageError> {
        match self.boards.borrow_mut().remove(path) {
            Some(_) => Ok(()),
            None => Err(StorageError::BoardNotFound(path.to_path_buf())),
        }
    }
}

/// A project directory and the store that keeps its board.
struct Project {
    repository: MemoryRepository,
    path: PathBuf,
}

impl Project {
    /// A project whose board, called "Test", is in the store.
    fn with_board() -> Self {
        let project =
            Project { repository: MemoryRepository::default(), path: PathBuf::from("/work/project") };
        BoardService::new(project.repository())
            .initialize(project.path(), Some("Test".to_string()))
            .unwrap();
        project
    }

    fn path(&self) -> &Path {
        &self.path
    }

    fn repository(&self) -> MemoryRepository {
        self.repository.clone()
    }

    fn app(&self) -> App<MemoryRepository> {
        App::new(self.path.clone(), self.repository())
    }

    /// The board as the store has it.
    fn stored(&self) -> Board {
        self.repository.load(&BoardStorage::board_path(&self.path)).unwrap()
    }

    /// An interface on the project, its board loaded, after these cards were made in "todo".
    fn app_with_cards(&self, titles: &[&str]) -> (App<MemoryRepository>, Vec<String>) {
        let cards = CardService::new(self.repository());
        let mut ids = Vec::new();
        for title in titles {
            ids.push(cards.create(self.path(), title.to_string(), None, None, None).unwrap().card_id);
        }
        let mut app = self.app();
        app.load_board().unwrap();
        (app, ids)
    }
}

fn new_app() -> App<MemoryRepository> {
    App::new(PathBuf::from("."), MemoryRepository::default())
}

fn focus_column(app: &mut App<MemoryRepository>, column: usize) {
    app.view = View::Board { selected_column: column, selection: Selection::Nothing };
}

fn highlight(app: &mut App<MemoryRepository>, column: usize, card_index: usize) {
    app.view = View::Board {
        selected_column: column,
        selection: Selection::Highlighted { column, card_index },
    };
}

fn select_card(app: &mut App<MemoryRepository>, card_id: String) {
    app.view = View::Board {
        selected_column: app.view.selected_column(),
        selection: Selection::Selected { card_id },
    };
}

fn in_cards(app: &App<MemoryRepository>) -> bool {
    matches!(
        app.view,
        View::Board { selection: Selection::Highlighted { .. } | Selection::Selected { .. }, .. }
    )
}

fn target_column(app: &App<MemoryRepository>) -> usize {
    match &app.view {
        View::MoveCard { target_column, .. } => *target_column,
        other => panic!("no move dialogue is up: {:?}", other),
    }
}

fn set_target_column(app: &mut App<MemoryRepository>, target: usize) {
    match &mut app.view {
        View::MoveCard { target_column, .. } => *target_column = target,
        other => panic!("no move dialogue is up: {:?}", other),
    }
}

fn press(app: &mut App<MemoryRepository>, keys: &[Key]) {
    for key in keys {
        handle_key(app, *key);
    }
}

fn type_text(app: &mut App<MemoryRepository>, text: &str) {
    for c in text.chars() {
        handle_key(app, Key::Char(c));
    }
}

#[test]
fn app_test_form_navigation() {
    let mut app = new_app();

    app.start_create_card();
    assert_eq!(app.form_data.current_field, FormField::Title);

    app.next_form_field();
    assert_eq!(app.form_data.current_field, FormField::Description);

    app.next_form_field();
    assert_eq!(app.form_data.current_field, FormField::Assignee);

    app.next_form_field();
    assert_eq!(app.form_data.current_field, FormField::Title);

    app.prev_form_field();
    assert_eq!(app.form_data.current_field, FormField::Assignee);
}

#[test]
fn app_tests_test_form_navigation() {
    let mut app = new_app();

    app.start_create_card();
    assert_eq!(app.form_data.current_field, FormField::Title);

    app.next_form_field();
    assert_eq!(app.form_data.current_field, FormField::Description);

    app.next_form_field();
    assert_eq!(app.form_data.current_field, FormField::Assignee);

    app.next_form_field();
    assert_eq!(app.form_data.current_field, FormField::Title);

    app.prev_form_field();
    assert_eq!(app.form_data.current_field, FormField::Assignee);
}

#[test]
fn app_test_form_field_input() {
    let mut app = new_app();
    app.start_create_card();

    *app.get_current_field_input_mut() = "Test Title".to_string();
    assert_eq!(app.form_data.title, "Test Title");

    app.next_form_field();
    *app.get_current_field_input_mut() = "Test Description".to_string();
    assert_eq!(app.form_data.description, "Test Description");

    app.next_form_field();
    *app.get_current_field_input_mut() = "Test Assignee".to_string();
    assert_eq!(app.form_data.assignee, "Test Assignee");
}

#[test]
fn app_tests_test_form_field_input() {
    let mut app = new_app();
    app.start_create_card();

    *app.get_current_field_input_mut() = "Test Title".to_string();
    assert_eq!(app.form_data.title, "Test Title");

    app.next_form_field();
    *app.get_current_field_input_mut() = "Test Description".to_string();
    assert_eq!(app.form_data.description, "Test Description");

    app.next_form_field();
    *app.get_current_field_input_mut() = "Test Assignee".to_string();
    assert_eq!(app.form_data.assignee, "Test Assignee");
}

#[test]
fn app_test_submit_card_empty_title() {
    let project = Project::with_board();

    let mut app = project.app();
    app.load_board().unwrap();
    app.start_create_card();

    *app.get_current_field_input_mut() = "".to_string();
    app.submit_card().unwrap();

    assert!(app.error_message.is_some());
    assert_eq!(app.error_message, Some("Title is required".to_string()));
    assert!(matches!(app.view, View::CardForm { mode: FormMode::Create { .. } }));
}

#[test]
fn app_tests_test_submit_card_empty_title() {
    let project = Project::with_board();

    let mut app = project.app();
    app.load_board().unwrap();
    app.start_create_card();

    *app.get_current_field_input_mut() = "".to_string();
    app.submit_card().unwrap();

    assert!(app.error_message.is_some());
    assert_eq!(app.error_message, Some("Title is required".to_string()));
    assert!(matches!(app.view, View::CardForm { mode: FormMode::Create { .. } }));
}

#[test]
fn app_test_create_card_success() {
    let project = Project::with_board();

    let mut app = project.app();
    app.load_board().unwrap();
    app.start_create_card();

    *app.get_current_field_input_mut() = "Test Card".to_string();
    app.next_form_field();
    *app.get_current_field_input_mut() = "Test Description".to_string();
    app.next_form_field();
    *app.get_current_field_input_mut() = "Test Assignee".to_string();

    app.submit_card().unwrap();

    assert!(app.error_message.is_none());
    assert!(matches!(app.view, View::Board { .. }));
    assert!(app.board.is_some());
    assert_eq!(app.board.as_ref().unwrap().cards.len(), 1);
    assert_eq!(app.board.as_ref().unwrap().cards[0].title, "Test Card");
}

#[test]
fn app_tests_test_create_card_success() {
    let project = Project::with_board();

    let mut app = project.app();
    app.load_board().unwrap();
    app.start_create_card();

    *app.get_current_field_input_mut() = "Test Card".to_string();
    app.next_form_field();
    *app.get_current_field_input_mut() = "Test Description".to_string();
    app.next_form_field();
    *app.get_current_field_input_mut() = "Test Assignee".to_string();

    app.submit_card().unwrap();

    assert!(app.error_message.is_none());
    assert!(matches!(app.view, View::Board { .. }));
    assert!(app.board.is_some());
    assert_eq!(app.board.as_ref().unwrap().cards.len(), 1);
    assert_eq!(app.board.as_ref().unwrap().cards[0].title, "Test Card");
}

#[test]
fn app_test_cancel_card() {
    let mut app = new_app();
    app.start_create_card();

    *app.get_current_field_input_mut() = "Test Title".to_string();
    app.cancel_card();

    assert!(matches!(app.view, View::Board { .. }));
    assert_eq!(app.form_data.title, "");
    assert_eq!(app.form_data.description, "");
    assert_eq!(app.form_data.assignee, "");
}

#[test]
fn app_tests_test_cancel_card() {
    let mut app = new_app();
    app.start_create_card();

    *app.get_current_field_input_mut() = "Test Title".to_string();
    app.cancel_card();

    assert!(matches!(app.view, View::Board { .. }));
    assert_eq!(app.form_data.title, "");
    assert_eq!(app.form_data.description, "");
    assert_eq!(app.form_data.assignee, "");
}

#[test]
fn app_test_delete_card() {
    let project = Project::with_board();

    let card_service = CardService::new(project.repository());
    let created = card_service
        .create(project.path(), "Test Card".to_string(), None, None, None)
        .unwrap();

    let mut app = project.app();
    app.load_board().unwrap();
    assert_eq!(app.board.as_ref().unwrap().cards.len(), 1);

    card_service
        .delete(project.path(), &created.card_id)
        .unwrap();

    app.load_board().unwrap();
    assert_eq!(app.board.as_ref().unwrap().cards.len(), 0);
}

#[test]
fn app_tests_test_delete_card() {
    let project = Project::with_board();

    let card_service = CardService::new(project.repository());
    let created = card_service
        .create(project.path(), "Test Card".to_string(), None, None, None)
        .unwrap();

    let mut app = project.app();
    app.load_board().unwrap();
    assert_eq!(app.board.as_ref().unwrap().cards.len(), 1);

    card_service
        .delete(project.path(), &created.card_id)
        .unwrap();

    app.load_board().unwrap();
    assert_eq!(app.board.as_ref().unwrap().cards.len(), 0);
}

#[test]
fn app_test_start_move_card() {
    let project = Project::with_board();

    let card_service = CardService::new(project.repository());
    let _created = card_service
        .create(project.path(), "Test Card".to_string(), None, None, None)
        .unwrap();

    let mut app = project.app();
    app.load_board().unwrap();
    highlight(&mut app, 0, 0);

    app.start_move_card();

    assert!(matches!(app.view, View::MoveCard { .. }));
    assert!(app.error_message.is_none());
}

#[test]
fn app_tests_test_start_move_card() {
    let project = Project::with_board();

    let card_service = CardService::new(project.repository());
    let _created = card_service
        .create(project.path(), "Test Card".to_string(), None, None, None)
        .unwrap();

    let mut app = project.app();
    app.load_board().unwrap();
    highlight(&mut app, 0, 0);

    app.start_move_card();

    assert!(matches!(app.view, View::MoveCard { .. }));
    assert!(app.error_message.is_none());
}

#[test]
fn app_test_move_card_navigation() {
    let project = Project::with_board();

    let card_service = CardService::new(project.repository());
    let _created = card_service
        .create(project.path(), "Test Card".to_string(), None, None, None)
        .unwrap();

    let mut app = project.app();
    app.load_board().unwrap();
    highlight(&mut app, 0, 0);

    app.start_move_card();
    let initial_target = target_column(&app);

    app.move_card_right();
    assert_eq!(target_column(&app), initial_target + 1);

    app.move_card_right();
    assert_eq!(target_column(&app), initial_target + 2);

    app.move_card_left();
    assert_eq!(target_column(&app), initial_target + 1);
}

#[test]
fn app_tests_test_move_card_navigation() {
    let project = Project::with_board();

    let card_service = CardService::new(project.repository());
    let _created = card_service
        .create(project.path(), "Test Card".to_string(), None, None, None)
        .unwrap();

    let mut app = project.app();
    app.load_board().unwrap();
    highlight(&mut app, 0, 0);

    app.start_move_card();
    let initial_target = target_column(&app);

    app.move_card_right();
    assert_eq!(target_column(&app), initial_target + 1);

    app.move_card_right();
    assert_eq!(target_column(&app), initial_target + 2);

    app.move_card_left();
    assert_eq!(target_column(&app), initial_target + 1);
}

#[test]
fn app_test_move_card_right_boundary() {
    let project = Project::with_board();

    let card_service = CardService::new(project.repository());
    let _created = card_service
        .create(project.path(), "Test Card".to_string(), None, None, None)
        .unwrap();

    let mut app = project.app();
    app.load_board().unwrap();
    highlight(&mut app, 0, 0);

    app.start_move_card();
    let last = app.board.as_ref().unwrap().columns.len() - 1;
    set_target_column(&mut app, last);

    app.move_card_right();
    assert_eq!(
        target_column(&app),
        app.board.as_ref().unwrap().columns.len() - 1
    );
}

#[test]
fn app_tests_test_move_card_right_boundary() {
    let project = Project::with_board();

    let card_service = CardService::new(project.repository());
    let _created = card_service
        .create(project.path(), "Test Card".to_string(), None, None, None)
        .unwrap();

    let mut app = project.app();
    app.load_board().unwrap();
    highlight(&mut app, 0, 0);

    app.start_move_card();
    let last = app.board.as_ref().unwrap().columns.len() - 1;
    set_target_column(&mut app, last);

    app.move_card_right();
    assert_eq!(
        target_column(&app),
        app.board.as_ref().unwrap().columns.len() - 1
    );
}

#[test]
fn app_test_move_card_left_boundary() {
    let project = Project::with_board();

    let card_service = CardService::new(project.repository());
    let _created = card_service
        .create(project.path(), "Test Card".to_string(), None, None, None)
        .unwrap();

    let mut app = project.app();
    app.load_board().unwrap();
    highlight(&mut app, 0, 0);

    app.start_move_card();
    set_target_column(&mut app, 0);

    app.move_card_left();
    assert_eq!(target_column(&app), 0);
}

#[test]
fn app_tests_test_move_card_left_boundary() {
    let project = Project::with_board();

    let card_service = CardService::new(project.repository());
    let _created = card_service
        .create(project.path(), "Test Card".to_string(), None, None, None)
        .unwrap();

    let mut app = project.app();
    app.load_board().unwrap();
    highlight(&mut app, 0, 0);

    app.start_move_card();
    set_target_column(&mut app, 0);

    app.move_card_left();
    assert_eq!(target_column(&app), 0);
}

#[test]
fn app_test_confirm_move_card_success() {
    let project = Project::with_board();

    let card_service = CardService::new(project.repository());
    let created = card_service
        .create(project.path(), "Test Card".to_string(), None, None, None)
        .unwrap();

    let mut app = project.app();
    app.load_board().unwrap();
    highlight(&mut app, 0, 0);

    app.start_move_card();
    app.move_card_right();

    app.confirm_move_card().unwrap();

    assert!(matches!(app.view, View::CardDetail { .. }));
    assert!(app.error_message.is_none());

    let card = app
        .board
        .as_ref()
        .unwrap()
        .get_card(&created.card_id)
        .unwrap();
    assert_eq!(card.column_id, "in_progress");
}

#[test]
fn app_tests_test_confirm_move_card_success() {
    let project = Project::with_board();

    let card_service = CardService::new(project.repository());
    let created = card_service
        .create(project.path(), "Test Card".to_string(), None, None, None)
        .unwrap();

    let mut app = project.app();
    app.load_board().unwrap();
    highlight(&mut app, 0, 0);

    app.start_move_card();
    app.move_card_right();

    app.confirm_move_card().unwrap();

    assert!(matches!(app.view, View::CardDetail { .. }));
    assert!(app.error_message.is_none());

    let card = app
        .board
        .as_ref()
        .unwrap()
        .get_card(&created.card_id)
        .unwrap();
    assert_eq!(card.column_id, "in_progress");
}

#[test]
fn app_test_cancel_move_card() {
    let project = Project::with_board();

    let card_service = CardService::new(project.repository());
    let _created = card_service
        .create(project.path(), "Test Card".to_string(), None, None, None)
        .unwrap();

    let mut app = project.app();
    app.load_board().unwrap();
    highlight(&mut app, 0, 0);

    app.start_move_card();
    assert!(matches!(app.view, View::MoveCard { .. }));

    app.cancel_move_card();

    assert!(matches!(app.view, View::CardDetail { .. }));
    assert!(app.error_message.is_none());
}

#[test]
fn app_tests_test_cancel_move_card() {
    let project = Project::with_board();

    let card_service = CardService::new(project.repository());
    let _created = card_service
        .create(project.path(), "Test Card".to_string(), None, None, None)
        .unwrap();

    let mut app = project.app();
    app.load_board().unwrap();
    highlight(&mut app, 0, 0);

    app.start_move_card();
    assert!(matches!(app.view, View::MoveCard { .. }));

    app.cancel_move_card();

    assert!(matches!(app.view, View::CardDetail { .. }));
    assert!(app.error_message.is_none());
}

#[test]
fn app_test_complete_move_flow() {
    let project = Project::with_board();

    let card_service = CardService::new(project.repository());
    let created = card_service
        .create(project.path(), "Test Card".to_string(), None, None, None)
        .unwrap();

    let mut app = project.app();
    app.load_board().unwrap();
    highlight(&mut app, 0, 0);

    app.enter_cards();
    assert!(matches!(app.view, View::Board { .. }));
    assert!(in_cards(&app));
    assert_eq!(app.get_selected_card_index(), Some(0));

    app.start_move_card();
    assert!(matches!(app.view, View::MoveCard { .. }));

    app.move_card_right();
    assert_eq!(target_column(&app), 1);

    app.confirm_move_card().unwrap();

    assert!(matches!(app.view, View::CardDetail { .. }));
    assert!(app.error_message.is_none());

    let card = app
        .board
        .as_ref()
        .unwrap()
        .get_card(&created.card_id)
        .unwrap();
    assert_eq!(card.column_id, "in_progress");
}

#[test]
fn app_tests_test_complete_move_flow() {
    let project = Project::with_board();

    let card_service = CardService::new(project.repository());
    let created = card_service
        .create(project.path(), "Test Card".to_string(), None, None, None)
        .unwrap();

    let mut app = project.app();
    app.load_board().unwrap();
    highlight(&mut app, 0, 0);

    app.enter_cards();
    assert!(matches!(app.view, View::Board { .. }));
    assert!(in_cards(&app));
    assert_eq!(app.get_selected_card_index(), Some(0));

    app.start_move_card();
    assert!(matches!(app.view, View::MoveCard { .. }));

    app.move_card_right();
    assert_eq!(target_column(&app), 1);

    app.confirm_move_card().unwrap();

    assert!(matches!(app.view, View::CardDetail { .. }));
    assert!(app.error_message.is_none());

    let card = app
        .board
        .as_ref()
        .unwrap()
        .get_card(&created.card_id)
        .unwrap();
    assert_eq!(card.column_id, "in_progress");
}

#[test]
fn app_test_enter_cards_focus_transitions_to_card_detail() {
    let project = Project::with_board();

    let card_service = CardService::new(project.repository());
    let _created = card_service
        .create(project.path(), "Test Card".to_string(), None, None, None)
        .unwrap();

    let mut app = project.app();
    app.load_board().unwrap();
    focus_column(&mut app, 0);

    assert!(matches!(app.view, View::Board { .. }));
    assert!(!in_cards(&app));

    app.enter_cards();
    assert!(in_cards(&app));
    assert_eq!(app.get_selected_card_index(), Some(0));

    app.enter_card_detail();
    assert!(matches!(app.view, View::Board { .. }));
    assert!(app.view.is_card_selected());

    app.enter_card_detail();
    assert!(matches!(app.view, View::CardDetail { .. }));
}

#[test]
fn app_tests_test_enter_cards_focus_transitions_to_card_detail() {
    let project = Project::with_board();

    let card_service = CardService::new(project.repository());
    let _created = card_service
        .create(project.path(), "Test Card".to_string(), None, None, None)
        .unwrap();

    let mut app = project.app();
    app.load_board().unwrap();
    focus_column(&mut app, 0);

    assert!(matches!(app.view, View::Board { .. }));
    assert!(!in_cards(&app));

    app.enter_cards();
    assert!(in_cards(&app));
    assert_eq!(app.get_selected_card_index(), Some(0));

    app.enter_card_detail();
    assert!(matches!(app.view, View::Board { .. }));
    assert!(app.view.is_card_selected());

    app.enter_card_detail();
    assert!(matches!(app.view, View::CardDetail { .. }));
}

#[test]
fn test_first_enter_selects_card_without_details() {
    let project = Project::with_board();

    let card_service = CardService::new(project.repository());
    let _created = card_service
        .create(project.path(), "Test Card".to_string(), None, None, None)
        .unwrap();

    let mut app = project.app();
    app.load_board().unwrap();
    focus_column(&mut app, 0);

    app.enter_cards();
    app.enter_card_detail();

    assert!(app.view.is_card_selected());
    assert!(matches!(app.view, View::Board { .. }));
    assert!(app.get_selected_card_index().is_some());
}

#[test]
fn test_second_enter_shows_card_details() {
    let project = Project::with_board();

    let card_service = CardService::new(project.repository());
    let _created = card_service
        .create(project.path(), "Test Card".to_string(), None, None, None)
        .unwrap();

    let mut app = project.app();
    app.load_board().unwrap();
    focus_column(&mut app, 0);

    app.enter_cards();
    app.enter_card_detail();
    app.enter_card_detail();

    assert!(matches!(app.view, View::CardDetail { .. }));
}

#[test]
fn test_quick_move_card_right() {
    let project = Project::with_board();

    let card_service = CardService::new(project.repository());
    let created = card_service
        .create(project.path(), "Test Card".to_string(), None, None, None)
        .unwrap();

    let mut app = project.app();
    app.load_board().unwrap();
    focus_column(&mut app, 0);

    app.enter_cards();
    app.enter_card_detail();
    let initial_column = app.view.selected_column();

    app.quick_move_card_right().unwrap();

    assert_eq!(app.view.selected_column(), initial_column + 1);
    assert!(app.view.is_card_selected());

    let card = app
        .board
        .as_ref()
        .unwrap()
        .get_card(&created.card_id)
        .unwrap();
    assert_eq!(card.column_id, "in_progress");
}

#[test]
fn test_quick_move_card_left() {
    let project = Project::with_board();

    let card_service = CardService::new(project.repository());
    let created = card_service
        .create(project.path(), "Test Card".to_string(), None, None, None)
        .unwrap();

    card_service
        .move_to(project.path(), &created.card_id, "in_progress")
        .unwrap();

    let mut app = project.app();
    app.load_board().unwrap();
    focus_column(&mut app, 1);
    app.enter_cards();
    app.enter_card_detail();

    app.quick_move_card_left().unwrap();

    assert_eq!(app.view.selected_column(), 0);
    assert!(app.view.is_card_selected());

    let card = app
        .board
        .as_ref()
        .unwrap()
        .get_card(&created.card_id)
        .unwrap();
    assert_eq!(card.column_id, "todo");
}

#[test]
fn test_esc_deselects_card() {
    let project = Project::with_board();

    let card_service = CardService::new(project.repository());
    let _created = card_service
        .create(project.path(), "Test Card".to_string(), None, None, None)
        .unwrap();

    let mut app = project.app();
    app.load_board().unwrap();
    focus_column(&mut app, 0);

    app.enter_cards();
    app.enter_card_detail();
    assert!(app.view.is_card_selected());

    app.deselect_card();

    assert!(!app.view.is_card_selected());
    assert!(app.get_selected_card_index().is_none());
    assert!(!in_cards(&app));
}

#[test]
fn test_move_without_card_selection() {
    let project = Project::with_board();

    let card_service = CardService::new(project.repository());
    let created = card_service
        .create(project.path(), "Test Card".to_string(), None, None, None)
        .unwrap();

    let mut app = project.app();
    app.load_board().unwrap();
    focus_column(&mut app, 0);
    app.enter_cards();
    assert!(!app.view.is_card_selected());

    let result = app.quick_move_card_right();

    assert!(result.is_ok());
    assert_eq!(app.view.selected_column(), 0);

    let card = app
        .board
        .as_ref()
        .unwrap()
        .get_card(&created.card_id)
        .unwrap();
    assert_eq!(card.column_id, "todo");
}

#[test]
fn test_quick_move_right_boundary() {
    let project = Project::with_board();

    let card_service = CardService::new(project.repository());
    let _created = card_service
        .create(project.path(), "Test Card".to_string(), None, None, None)
        .unwrap();

    let mut app = project.app();
    app.load_board().unwrap();
    let last = app.board.as_ref().unwrap().columns.len() - 1;
    focus_column(&mut app, last);
    app.enter_cards();
    app.enter_card_detail();

    app.quick_move_card_right().unwrap();

    assert_eq!(
        app.view.selected_column(),
        app.board.as_ref().unwrap().columns.len() - 1
    );
}

#[test]
fn test_quick_move_left_boundary() {
    let project = Project::with_board();

    let card_service = CardService::new(project.repository());
    let _created = card_service
        .create(project.path(), "Test Card".to_string(), None, None, None)
        .unwrap();

    let mut app = project.app();
    app.load_board().unwrap();
    focus_column(&mut app, 0);
    app.enter_cards();
    app.enter_card_detail();

    app.quick_move_card_left().unwrap();

    assert_eq!(app.view.selected_column(), 0);
}

#[test]
fn test_selected_card_id_set_when_entering_cards() {
    let project = Project::with_board();

    let card_service = CardService::new(project.repository());
    let created = card_service
        .create(project.path(), "Test Card".to_string(), None, None, None)
        .unwrap();

    let mut app = project.app();
    app.load_board().unwrap();
    focus_column(&mut app, 0);

    app.enter_cards();

    assert_eq!(app.get_selected_card_index(), Some(0));
    assert_eq!(app.selected_card_id().as_ref(), Some(&created.card_id));
}

#[test]
fn test_selected_card_id_cleared_when_exiting() {
    let project = Project::with_board();

    let card_service = CardService::new(project.repository());
    let created = card_service
        .create(project.path(), "Test Card".to_string(), None, None, None)
        .unwrap();

    let mut app = project.app();
    app.load_board().unwrap();
    focus_column(&mut app, 0);
    app.enter_cards();

    assert_eq!(app.selected_card_id().as_ref(), Some(&created.card_id));

    app.exit_cards();

    assert!(app.get_selected_card_index().is_none());
    assert!(app.selected_card_id().is_none());
}

#[test]
fn test_selected_card_id_matches_selected_card_when_moving() {
    let project = Project::with_board();

    let card_service = CardService::new(project.repository());
    let card1_id = card_service
        .create(project.path(), "Card 1".to_string(), None, None, None)
        .unwrap()
        .card_id;
    let card2_id = card_service
        .create(project.path(), "Card 2".to_string(), None, None, None)
        .unwrap()
        .card_id;
    let card3_id = card_service
        .create(project.path(), "Card 3".to_string(), None, None, None)
        .unwrap()
        .card_id;

    let mut app = project.app();
    app.load_board().unwrap();
    focus_column(&mut app, 0);
    app.enter_cards();

    assert_eq!(app.get_selected_card_index(), Some(0));
    assert_eq!(app.selected_card_id().as_ref(), Some(&card1_id));

    app.move_down();
    assert_eq!(app.get_selected_card_index(), Some(1));
    assert_eq!(app.selected_card_id().as_ref(), Some(&card2_id));

    app.move_down();
    assert_eq!(app.get_selected_card_index(), Some(2));
    assert_eq!(app.selected_card_id().as_ref(), Some(&card3_id));

    app.move_up();
    assert_eq!(app.get_selected_card_index(), Some(1));
    assert_eq!(app.selected_card_id().as_ref(), Some(&card2_id));
}

#[test]
fn test_get_selected_card_index_returns_correct_index() {
    let project = Project::with_board();

    let card_service = CardService::new(project.repository());
    let card1_id = card_service
        .create(project.path(), "Card 1".to_string(), None, None, None)
        .unwrap()
        .card_id;
    card_service
        .create(project.path(), "Card 2".to_string(), None, None, None)
        .unwrap();
    let card3_id = card_service
        .create(project.path(), "Card 3".to_string(), None, None, None)
        .unwrap()
        .card_id;

    let mut app = project.app();
    app.load_board().unwrap();
    focus_column(&mut app, 0);
    app.enter_cards();

    assert_eq!(app.get_selected_card_index(), Some(0));

    app.move_down();
    assert_eq!(app.get_selected_card_index(), Some(1));

    app.move_down();
    assert_eq!(app.get_selected_card_index(), Some(2));

    select_card(&mut app, card1_id);
    assert_eq!(app.get_selected_card_index(), Some(0));

    select_card(&mut app, card3_id);
    assert_eq!(app.get_selected_card_index(), Some(2));
}

#[test]
fn test_get_selected_card_index_returns_none_when_no_selection() {
    let project = Project::with_board();

    let card_service = CardService::new(project.repository());
    card_service
        .create(project.path(), "Test Card".to_string(), None, None, None)
        .unwrap();

    let mut app = project.app();
    app.load_board().unwrap();

    assert!(app.get_selected_card_index().is_none());
}

#[test]
fn test_get_selected_card_index_after_quick_move_right() {
    let project = Project::with_board();

    let card_service = CardService::new(project.repository());
    let created = card_service
        .create(project.path(), "Test Card".to_string(), None, None, None)
        .unwrap();

    let mut app = project.app();
    app.load_board().unwrap();
    focus_column(&mut app, 0);

    app.enter_cards();
    app.enter_card_detail();

    assert_eq!(app.get_selected_card_index(), Some(0));
    assert_eq!(app.selected_card_id().as_ref(), Some(&created.card_id));

    app.quick_move_card_right().unwrap();

    assert_eq!(app.view.selected_column(), 1);
    assert!(app.view.is_card_selected());
    assert_eq!(app.selected_card_id().as_ref(), Some(&created.card_id));
    assert_eq!(app.get_selected_card_index(), Some(0));
}

#[test]
fn test_get_selected_card_index_after_quick_move_left() {
    let project = Project::with_board();

    let card_service = CardService::new(project.repository());
    let created = card_service
        .create(project.path(), "Test Card".to_string(), None, None, None)
        .unwrap();

    card_service
        .move_to(project.path(), &created.card_id, "in_progress")
        .unwrap();

    let mut app = project.app();
    app.load_board().unwrap();
    focus_column(&mut app, 1);
    app.enter_cards();
    app.enter_card_detail();

    assert_eq!(app.get_selected_card_index(), Some(0));
    assert_eq!(app.selected_card_id().as_ref(), Some(&created.card_id));

    app.quick_move_card_left().unwrap();

    assert_eq!(app.view.selected_column(), 0);
    assert!(app.view.is_card_selected());
    assert_eq!(app.selected_card_id().as_ref(), Some(&created.card_id));
    assert_eq!(app.get_selected_card_index(), Some(0));
}

#[test]
fn test_get_selected_card_index_with_multiple_cards_after_move() {
    let project = Project::with_board();

    let card_service = CardService::new(project.repository());
    card_service
        .create(project.path(), "Card 1".to_string(), None, None, None)
        .unwrap();
    let card2 = card_service
        .create(project.path(), "Card 2".to_string(), None, None, None)
        .unwrap();
    card_service
        .create(project.path(), "Card 3".to_string(), None, None, None)
        .unwrap();

    let mut app = project.app();
    app.load_board().unwrap();
    focus_column(&mut app, 0);

    app.enter_cards();
    app.move_down();
    app.enter_card_detail();

    assert_eq!(app.get_selected_card_index(), Some(1));
    assert_eq!(app.selected_card_id().as_ref(), Some(&card2.card_id));

    app.quick_move_card_right().unwrap();

    assert_eq!(app.view.selected_column(), 1);
    assert!(app.view.is_card_selected());
    assert_eq!(app.selected_card_id().as_ref(), Some(&card2.card_id));
    assert_eq!(app.get_selected_card_index(), Some(0));
}

#[test]
fn test_exit_cards_clears_card_selection() {
    let project = Project::with_board();

    let card_service = CardService::new(project.repository());
    let _created = card_service
        .create(project.path(), "Test Card".to_string(), None, None, None)
        .unwrap();

    let mut app = project.app();
    app.load_board().unwrap();
    focus_column(&mut app, 0);

    app.enter_cards();
    app.enter_card_detail();
    assert!(app.view.is_card_selected());

    app.exit_cards();

    assert!(!app.view.is_card_selected());
    assert!(app.get_selected_card_index().is_none());
    assert!(!in_cards(&app));
}

#[test]
fn the_interface_starts_on_the_board_without_a_board() {
    let app = new_app();
    assert_eq!(app.view, View::Board { selected_column: 0, selection: Selection::Nothing });
    assert!(app.board.is_none());
    assert!(app.error_message.is_none());
    assert_eq!(app.form_data.title, "");
    assert_eq!(app.form_data.current_field, FormField::Title);
    assert_eq!(app.form_data.input_mode, InputMode::Normal);
    assert_eq!(app.column_count(), 0);
    assert!(app.get_current_column().is_none());
    assert!(app.selected_card_id().is_none());
}

#[test]
fn loading_where_the_store_has_no_board_says_so() {
    let mut app = new_app();

    app.load_board().unwrap();

    assert!(app.board.is_none());
    assert_eq!(
        app.error_message,
        Some("No board found. Run 'clicky init' to create one.".to_string())
    );
}

#[test]
fn quick_move_keeps_the_card_selected_and_follows_it() {
    let project = Project::with_board();
    let (mut app, ids) = project.app_with_cards(&["Card"]);
    focus_column(&mut app, 0);
    press(&mut app, &[Key::Down, Key::Enter]);
    assert_eq!(
        app.view,
        View::Board { selected_column: 0, selection: Selection::Selected { card_id: ids[0].clone() } }
    );

    press(&mut app, &[Key::Right]);

    assert_eq!(
        app.view,
        View::Board { selected_column: 1, selection: Selection::Selected { card_id: ids[0].clone() } }
    );
    assert_eq!(app.board.as_ref().unwrap().get_card(&ids[0]).unwrap().column_id, "in_progress");
    assert_eq!(project.stored().get_card(&ids[0]).unwrap().column_id, "in_progress");

    press(&mut app, &[Key::Char('l'), Key::Char('l')]);
    assert_eq!(app.view.selected_column(), 2);
    assert_eq!(project.stored().get_card(&ids[0]).unwrap().column_id, "done");
    assert!(app.error_message.is_none());

    press(&mut app, &[Key::Char('h')]);
    assert_eq!(app.view.selected_column(), 1);
    assert_eq!(project.stored().get_card(&ids[0]).unwrap().column_id, "in_progress");
}

#[test]
fn submitting_without_a_title_uses_no_card_number() {
    let project = Project::with_board();
    let (mut app, _) = project.app_with_cards(&[]);
    app.start_create_card();
    *app.get_current_field_input_mut() = "   ".to_string();
    app.next_form_field();
    *app.get_current_field_input_mut() = "Kept".to_string();

    app.submit_card().unwrap();

    assert_eq!(
        app.view,
        View::CardForm { mode: FormMode::Create { column_id: "todo".to_string() } }
    );
    assert_eq!(app.error_message, Some("Title is required".to_string()));
    assert_eq!(app.form_data.title, "   ");
    assert_eq!(app.form_data.description, "Kept");
    assert_eq!(app.form_data.current_field, FormField::Description);
    assert_eq!(project.stored().next_card_number, 1);
    assert!(project.stored().cards.is_empty());
    assert_eq!(app.board.as_ref().unwrap().next_card_number, 1);
}

#[test]
fn a_card_is_typed_in_and_submitted() {
    let project = Project::with_board();
    let (mut app, _) = project.app_with_cards(&[]);
    press(&mut app, &[Key::Right, Key::Char('c')]);
    assert_eq!(
        app.view,
        View::CardForm { mode: FormMode::Create { column_id: "in_progress".to_string() } }
    );
    assert_eq!(app.form_data.input_mode, InputMode::Normal);

    type_text(&mut app, "Fix the lock");
    assert_eq!(app.form_data.input_mode, InputMode::Editing);
    assert_eq!(app.form_data.title, "Fix the lock");
    press(&mut app, &[Key::Backspace, Key::Backspace, Key::Char('c'), Key::Char('k')]);
    assert_eq!(app.form_data.title, "Fix the lock");
    press(&mut app, &[Key::Enter]);
    assert_eq!(app.form_data.current_field, FormField::Description);
    assert_eq!(app.form_data.input_mode, InputMode::Normal);

    press(&mut app, &[Key::Down]);
    assert_eq!(app.form_data.current_field, FormField::Assignee);
    type_text(&mut app, "Ann");
    press(&mut app, &[Key::Esc]);
    assert_eq!(app.form_data.input_mode, InputMode::Normal);
    assert_eq!(app.form_data.current_field, FormField::Assignee);

    press(&mut app, &[Key::Enter]);

    assert_eq!(app.view, View::Board { selected_column: 0, selection: Selection::Nothing });
    assert_eq!(app.form_data.title, "");
    assert_eq!(app.form_data.assignee, "");
    assert!(app.error_message.is_none());
    let stored = project.stored();
    assert_eq!(stored.cards.len(), 1);
    assert_eq!(stored.cards[0].id, "TES-001");
    assert_eq!(stored.cards[0].title, "Fix the lock");
    assert_eq!(stored.cards[0].description, None);
    assert_eq!(stored.cards[0].assignee, Some("Ann".to_string()));
    assert_eq!(stored.cards[0].column_id, "in_progress");
    assert_eq!(app.board, Some(stored));
}

#[test]
fn the_title_is_trimmed_on_submission() {
    let project = Project::with_board();
    let (mut app, _) = project.app_with_cards(&[]);
    app.start_create_card();
    *app.get_current_field_input_mut() = "  Padded  ".to_string();

    app.submit_card().unwrap();

    assert_eq!(project.stored().cards[0].title, "Padded");
}

#[test]
fn the_first_key_typed_is_kept() {
    let mut app = new_app();
    app.start_create_card();
    assert_eq!(app.form_data.input_mode, InputMode::Normal);

    handle_key(&mut app, Key::Char('x'));

    assert_eq!(app.form_data.input_mode, InputMode::Editing);
    assert_eq!(app.form_data.title, "x");

    type_text(&mut app, "kj?hl q");
    assert_eq!(app.form_data.title, "xkj?hl q");
    assert!(matches!(app.view, View::CardForm { .. }));
}

#[test]
fn a_card_is_edited_through_the_form() {
    let project = Project::with_board();
    let cards = CardService::new(project.repository());
    let created = cards
        .create(
            project.path(),
            "Old".to_string(),
            Some("Text".to_string()),
            Some("Ann".to_string()),
            None,
        )
        .unwrap();
    let mut app = project.app();
    app.load_board().unwrap();
    press(&mut app, &[Key::Down, Key::Enter, Key::Enter]);
    assert_eq!(app.view, View::CardDetail { card_id: created.card_id.clone() });

    press(&mut app, &[Key::Char('e')]);

    assert_eq!(app.view, View::CardForm { mode: FormMode::Edit { card_id: created.card_id.clone() } });
    assert_eq!(app.form_data.title, "Old");
    assert_eq!(app.form_data.description, "Text");
    assert_eq!(app.form_data.assignee, "Ann");

    *app.get_current_field_input_mut() = "New".to_string();
    app.next_form_field();
    *app.get_current_field_input_mut() = " ".to_string();
    press(&mut app, &[Key::Enter]);

    assert_eq!(app.view, View::Board { selected_column: 0, selection: Selection::Nothing });
    let stored = project.stored();
    assert_eq!(stored.cards.len(), 1);
    assert_eq!(stored.next_card_number, 2);
    let card = stored.get_card(&created.card_id).unwrap();
    assert_eq!(card.title, "New");
    assert_eq!(card.description, None);
    assert_eq!(card.assignee, Some("Ann".to_string()));
}

#[test]
fn a_failed_submission_keeps_what_was_typed() {
    let project = Project::with_board();
    let (mut app, _) = project.app_with_cards(&[]);
    press(&mut app, &[Key::Char('c')]);
    type_text(&mut app, "Keep me");
    press(&mut app, &[Key::Esc]);
    project.repository.break_saving();

    press(&mut app, &[Key::Enter]);

    assert_eq!(app.view, View::CardForm { mode: FormMode::Create { column_id: "todo".to_string() } });
    assert_eq!(app.form_data.title, "Keep me");
    assert_eq!(
        app.error_message,
        Some("Failed to save card: Board service error: Storage error: IO error: disk full".to_string())
    );
    assert!(project.stored().cards.is_empty());

    press(&mut app, &[Key::Esc]);
    assert_eq!(app.view, View::Board { selected_column: 0, selection: Selection::Nothing });
    assert_eq!(app.form_data.title, "");
}

#[test]
fn cancelling_the_move_leaves_the_card_where_it_was() {
    let project = Project::with_board();
    let (mut app, ids) = project.app_with_cards(&["Card"]);
    let before = project.stored();
    press(&mut app, &[Key::Down, Key::Char('m')]);
    assert_eq!(app.view, View::MoveCard { card_id: ids[0].clone(), target_column: 0 });

    press(&mut app, &[Key::Right, Key::Right, Key::Right, Key::Left, Key::Esc]);

    assert_eq!(app.view, View::CardDetail { card_id: ids[0].clone() });
    assert_eq!(project.stored(), before);
    assert_eq!(app.board, Some(before));
}

#[test]
fn the_move_target_starts_at_the_card_and_stays_on_the_board() {
    let project = Project::with_board();
    let cards = CardService::new(project.repository());
    let created = cards
        .create(project.path(), "Card".to_string(), None, None, Some("done".to_string()))
        .unwrap();
    let mut app = project.app();
    app.load_board().unwrap();
    app.view = View::CardDetail { card_id: created.card_id.clone() };

    app.start_move_card();
    assert_eq!(target_column(&app), 2);

    app.move_card_right();
    assert_eq!(target_column(&app), 2);
    app.move_card_left();
    app.move_card_left();
    app.move_card_left();
    assert_eq!(target_column(&app), 0);
}

#[test]
fn a_move_cannot_be_confirmed_without_a_dialogue_or_a_column() {
    let project = Project::with_board();
    let (mut app, ids) = project.app_with_cards(&["Card"]);

    assert!(matches!(app.confirm_move_card(), Err(AppError::NoCardSelected)));
    assert_eq!(AppError::NoCardSelected.message(), "No card selected");

    app.view = View::MoveCard { card_id: ids[0].clone(), target_column: 3 };
    assert!(matches!(app.confirm_move_card(), Err(AppError::InvalidTargetColumn)));
    assert_eq!(AppError::InvalidTargetColumn.message(), "Invalid target column");
    assert_eq!(app.view, View::MoveCard { card_id: ids[0].clone(), target_column: 3 });

    press(&mut app, &[Key::Enter]);
    assert_eq!(app.error_message, Some("Failed to move card: Invalid target column".to_string()));
    assert_eq!(project.stored().get_card(&ids[0]).unwrap().column_id, "todo");
}

#[test]
fn a_card_is_deleted_after_the_question() {
    let project = Project::with_board();
    let (mut app, ids) = project.app_with_cards(&["One", "Two"]);
    press(&mut app, &[Key::Down, Key::Down, Key::Enter, Key::Enter]);
    assert_eq!(app.view, View::CardDetail { card_id: ids[1].clone() });

    press(&mut app, &[Key::Char('d')]);
    assert_eq!(app.view, View::ConfirmDelete { card_id: ids[1].clone() });
    press(&mut app, &[Key::Char('n')]);
    assert_eq!(app.view, View::CardDetail { card_id: ids[1].clone() });
    assert_eq!(project.stored().cards.len(), 2);

    press(&mut app, &[Key::Char('d'), Key::Esc]);
    assert_eq!(app.view, View::CardDetail { card_id: ids[1].clone() });
    assert_eq!(project.stored().cards.len(), 2);

    press(&mut app, &[Key::Char('d'), Key::Char('y')]);

    assert_eq!(app.view, View::Board { selected_column: 0, selection: Selection::Nothing });
    let stored = project.stored();
    assert_eq!(stored.cards.len(), 1);
    assert_eq!(stored.cards[0].id, ids[0]);
    assert_eq!(stored.columns[0].cards, vec![ids[0].clone()]);
    assert_eq!(stored.next_card_number, 3);
    assert_eq!(app.board, Some(stored));
}

#[test]
fn a_failed_deletion_stays_on_the_question() {
    let project = Project::with_board();
    let (mut app, ids) = project.app_with_cards(&["One"]);
    app.view = View::ConfirmDelete { card_id: ids[0].clone() };
    project.repository.break_saving();

    press(&mut app, &[Key::Char('y')]);

    assert_eq!(app.view, View::ConfirmDelete { card_id: ids[0].clone() });
    assert_eq!(
        app.error_message,
        Some("Failed to delete: Board service error: Storage error: IO error: disk full".to_string())
    );
    assert_eq!(project.stored().cards.len(), 1);
}

#[test]
fn help_covers_any_view_and_gives_it_back() {
    let project = Project::with_board();
    let (mut app, ids) = project.app_with_cards(&["Card"]);
    let views = vec![
        View::Board { selected_column: 2, selection: Selection::Nothing },
        View::Board {
            selected_column: 0,
            selection: Selection::Highlighted { column: 0, card_index: 0 },
        },
        View::Board { selected_column: 1, selection: Selection::Selected { card_id: ids[0].clone() } },
        View::CardDetail { card_id: ids[0].clone() },
        View::MoveCard { card_id: ids[0].clone(), target_column: 1 },
        View::ConfirmDelete { card_id: ids[0].clone() },
    ];
    for view in views {
        app.view = view.clone();
        press(&mut app, &[Key::Char('?')]);
        assert_eq!(app.view, View::Help { previous: Box::new(view.clone()) });
        assert!(app.view.is_help());
        press(&mut app, &[Key::Char('x'), Key::Enter, Key::Char('q')]);
        assert_eq!(app.view, View::Help { previous: Box::new(view.clone()) });
        press(&mut app, &[Key::Char('?')]);
        assert_eq!(app.view, view);
        press(&mut app, &[Key::Char('?'), Key::Esc]);
        assert_eq!(app.view, view);
    }
}

#[test]
fn closing_help_takes_the_error_away() {
    let mut app = new_app();
    app.error_message = Some("Something".to_string());

    app.toggle_help();
    assert_eq!(app.error_message, Some("Something".to_string()));
    app.toggle_help();
    assert!(app.error_message.is_none());
    assert_eq!(app.view, View::Board { selected_column: 0, selection: Selection::Nothing });
}

#[test]
fn help_opens_over_the_form_before_typing_starts() {
    let mut app = new_app();
    app.start_create_card();
    let form = View::CardForm { mode: FormMode::Create { column_id: "todo".to_string() } };

    press(&mut app, &[Key::Char('?')]);
    assert_eq!(app.view, View::Help { previous: Box::new(form.clone()) });
    press(&mut app, &[Key::Esc]);
    assert_eq!(app.view, form);
    assert_eq!(app.form_data.title, "");
}

#[test]
fn the_focus_stays_on_the_board() {
    let project = Project::with_board();
    let (mut app, _) = project.app_with_cards(&["Card"]);

    press(&mut app, &[Key::Left]);
    assert_eq!(app.view.selected_column(), 0);
    press(&mut app, &[Key::Right, Key::Right, Key::Right, Key::Right]);
    assert_eq!(app.view.selected_column(), 2);
    press(&mut app, &[Key::Char('h')]);
    assert_eq!(app.view.selected_column(), 1);

    let mut unloaded = new_app();
    unloaded.move_right();
    assert_eq!(unloaded.view.selected_column(), 0);
}

#[test]
fn a_highlight_does_not_survive_a_change_of_column() {
    let project = Project::with_board();
    let (mut app, _) = project.app_with_cards(&["Card"]);
    press(&mut app, &[Key::Down]);
    assert_eq!(
        app.view,
        View::Board { selected_column: 0, selection: Selection::Highlighted { column: 0, card_index: 0 } }
    );

    press(&mut app, &[Key::Right]);

    assert_eq!(app.view, View::Board { selected_column: 1, selection: Selection::Nothing });
    press(&mut app, &[Key::Down]);
    assert_eq!(app.view, View::Board { selected_column: 1, selection: Selection::Nothing });
    press(&mut app, &[Key::Up]);
    assert_eq!(app.view, View::Board { selected_column: 1, selection: Selection::Nothing });
}

#[test]
fn the_highlight_starts_at_the_top_going_down_and_at_the_bottom_going_up() {
    let project = Project::with_board();
    let (mut app, ids) = project.app_with_cards(&["One", "Two", "Three"]);

    press(&mut app, &[Key::Down]);
    assert_eq!(app.selected_card_id(), Some(ids[0].clone()));
    press(&mut app, &[Key::Up]);
    assert_eq!(app.selected_card_id(), Some(ids[0].clone()));
    press(&mut app, &[Key::Char('j'), Key::Char('j'), Key::Char('j'), Key::Char('j')]);
    assert_eq!(app.selected_card_id(), Some(ids[2].clone()));
    assert_eq!(app.get_selected_card_index(), Some(2));

    press(&mut app, &[Key::Esc, Key::Up]);
    assert_eq!(app.selected_card_id(), Some(ids[2].clone()));
    press(&mut app, &[Key::Char('k')]);
    assert_eq!(app.selected_card_id(), Some(ids[1].clone()));
}

#[test]
fn the_cursor_follows_the_order_of_the_column() {
    let project = Project::with_board();
    let (mut app, ids) = project.app_with_cards(&["One", "Two"]);
    BoardService::new(project.repository())
        .reorder_card_in_column(
            project.path(),
            &ids[1],
            clicky::application::board_service::MoveDirection::Up,
        )
        .unwrap();
    app.load_board().unwrap();

    press(&mut app, &[Key::Down]);

    assert_eq!(app.selected_card_id(), Some(ids[1].clone()));
    assert_eq!(app.card_at(0, 1), Some(ids[0].clone()));
    assert_eq!(app.card_at(0, 2), None);
    assert_eq!(app.card_at(3, 0), None);
    assert_eq!(app.card_count(0), 2);
    assert_eq!(app.card_count(1), 0);
    assert_eq!(app.card_count(3), 0);
}

#[test]
fn a_selected_card_stays_selected_under_the_arrow_keys() {
    let project = Project::with_board();
    let (mut app, ids) = project.app_with_cards(&["One", "Two"]);
    press(&mut app, &[Key::Down, Key::Enter]);
    let selected =
        View::Board { selected_column: 0, selection: Selection::Selected { card_id: ids[0].clone() } };
    assert_eq!(app.view, selected);

    press(&mut app, &[Key::Down, Key::Up, Key::Left]);

    assert_eq!(app.view, selected);
    assert_eq!(project.stored().get_card(&ids[0]).unwrap().column_id, "todo");

    press(&mut app, &[Key::Esc]);
    assert_eq!(app.view, View::Board { selected_column: 0, selection: Selection::Nothing });
}

#[test]
fn the_detail_screen_opens_from_a_highlight_and_closes_to_the_board() {
    let project = Project::with_board();
    let (mut app, ids) = project.app_with_cards(&["One"]);
    press(&mut app, &[Key::Right, Key::Left, Key::Down, Key::Char('d')]);
    assert_eq!(app.view, View::CardDetail { card_id: ids[0].clone() });

    press(&mut app, &[Key::Esc]);
    assert_eq!(app.view, View::Board { selected_column: 0, selection: Selection::Nothing });

    press(&mut app, &[Key::Char('d')]);
    assert_eq!(app.view, View::Board { selected_column: 0, selection: Selection::Nothing });
}

#[test]
fn enter_on_an_empty_column_selects_nothing() {
    let project = Project::with_board();
    let (mut app, _) = project.app_with_cards(&[]);

    press(&mut app, &[Key::Enter]);
    assert_eq!(
        app.view,
        View::Board { selected_column: 0, selection: Selection::Highlighted { column: 0, card_index: 0 } }
    );
    assert!(app.selected_card_id().is_none());
    assert!(app.get_selected_card_index().is_none());

    press(&mut app, &[Key::Enter, Key::Char('m'), Key::Char('d')]);
    assert_eq!(
        app.view,
        View::Board { selected_column: 0, selection: Selection::Highlighted { column: 0, card_index: 0 } }
    );
}

#[test]
fn quitting_is_for_the_board_screen() {
    let project = Project::with_board();
    let (mut app, ids) = project.app_with_cards(&["One"]);

    assert!(!handle_key(&mut app, Key::Char('x')));
    assert!(handle_key(&mut app, Key::Char('q')));

    app.view = View::ConfirmDelete { card_id: ids[0].clone() };
    assert!(!handle_key(&mut app, Key::Char('q')));
    app.view = View::MoveCard { card_id: ids[0].clone(), target_column: 0 };
    assert!(!handle_key(&mut app, Key::Char('q')));
    app.start_create_card();
    assert!(!handle_key(&mut app, Key::Char('q')));
    assert_eq!(app.form_data.title, "q");
}

#[test]
fn a_quick_move_needs_a_selected_card_and_a_neighbour() {
    let project = Project::with_board();
    let (mut app, ids) = project.app_with_cards(&["One"]);

    assert_eq!(app.quick_move_target(Side::Right), None);
    select_card(&mut app, ids[0].clone());
    assert_eq!(app.quick_move_target(Side::Left), None);
    assert_eq!(app.quick_move_target(Side::Right), Some(1));
    focus_column(&mut app, 2);
    select_card(&mut app, ids[0].clone());
    assert_eq!(app.quick_move_target(Side::Left), Some(1));
    assert_eq!(app.quick_move_target(Side::Right), None);
    assert!(app.quick_move_request(Side::Right).is_none());
    assert!(app.quick_move_card(Side::Right).is_ok());
    assert_eq!(project.stored().get_card(&ids[0]).unwrap().column_id, "todo");
}

#[test]
fn a_failed_quick_move_shows_an_error_and_moves_nothing() {
    let project = Project::with_board();
    let (mut app, ids) = project.app_with_cards(&["One"]);
    select_card(&mut app, ids[0].clone());
    let before = app.view.clone();
    project.repository.break_saving();

    press(&mut app, &[Key::Right]);

    assert_eq!(app.view, before);
    assert_eq!(
        app.error_message,
        Some("Failed to move card: Board service error: Storage error: IO error: disk full".to_string())
    );
    assert_eq!(project.stored().get_card(&ids[0]).unwrap().column_id, "todo");
}

#[test]
fn keys_stand_for_commands() {
    assert_eq!(command(Key::Left), Command::Left);
    assert_eq!(command(Key::Char('h')), Command::Left);
    assert_eq!(command(Key::Right), Command::Right);
    assert_eq!(command(Key::Char('l')), Command::Right);
    assert_eq!(command(Key::Up), Command::Up);
    assert_eq!(command(Key::Char('k')), Command::Up);
    assert_eq!(command(Key::Down), Command::Down);
    assert_eq!(command(Key::Char('j')), Command::Down);
    assert_eq!(command(Key::Enter), Command::Confirm);
    assert_eq!(command(Key::Esc), Command::Cancel);
    assert_eq!(command(Key::Backspace), Command::Erase);
    assert_eq!(command(Key::Char('?')), Command::Help);
    assert_eq!(command(Key::Char('q')), Command::Letter('q'));
    assert_eq!(command(Key::Char('H')), Command::Letter('H'));
    assert_eq!(command(Key::Other), Command::Ignored);
}

#[test]
fn a_tick_changes_nothing() {
    let project = Project::with_board();
    let (mut app, ids) = project.app_with_cards(&["One"]);
    select_card(&mut app, ids[0].clone());
    let view = app.view.clone();
    let board = app.board.clone();

    assert!(!handle_event(&mut app, Event::Tick));

    assert_eq!(app.view, view);
    assert_eq!(app.board, board);
    assert!(app.error_message.is_none());
    assert!(!handle_event(&mut app, Event::Input(Key::Esc)));
    assert_eq!(app.view, View::Board { selected_column: 0, selection: Selection::Nothing });
    assert!(handle_event(&mut app, Event::Input(Key::Char('q'))));
}

#[test]
fn the_cursor_shows_while_a_field_is_edited() {
    let mut app = new_app();
    assert!(!cursor_visible(&app));
    app.start_create_card();
    assert!(!cursor_visible(&app));
    handle_key(&mut app, Key::Char('a'));
    assert!(cursor_visible(&app));
    handle_key(&mut app, Key::Esc);
    assert!(!cursor_visible(&app));
    app.form_data.input_mode = InputMode::Editing;
    app.cancel_card();
    assert!(!cursor_visible(&app));
}

#[test]
fn leaving_the_detail_screen_brings_the_cards_column_into_focus() {
    let project = Project::with_board();
    let cards = CardService::new(project.repository());
    let created = cards
        .create(project.path(), "Card".to_string(), None, None, Some("done".to_string()))
        .unwrap();
    let mut app = project.app();
    app.load_board().unwrap();
    app.view = View::CardDetail { card_id: created.card_id.clone() };
    assert_eq!(app.return_column(), 2);

    press(&mut app, &[Key::Esc]);

    assert_eq!(app.view, View::Board { selected_column: 2, selection: Selection::Nothing });

    app.view = View::CardDetail { card_id: "TES-999".to_string() };
    app.exit_card_detail();
    assert_eq!(app.view, View::Board { selected_column: 0, selection: Selection::Nothing });
}

#[test]
fn giving_the_form_up_brings_its_column_into_focus() {
    let project = Project::with_board();
    let (mut app, ids) = project.app_with_cards(&["Card"]);
    press(&mut app, &[Key::Right, Key::Char('c')]);
    type_text(&mut app, "Half typed");
    press(&mut app, &[Key::Esc]);

    press(&mut app, &[Key::Esc]);

    assert_eq!(app.view, View::Board { selected_column: 1, selection: Selection::Nothing });
    assert_eq!(app.form_data.title, "");
    assert!(project.stored().cards.len() == 1);

    CardService::new(project.repository()).move_to(project.path(), &ids[0], "done").unwrap();
    app.load_board().unwrap();
    app.view = View::CardDetail { card_id: ids[0].clone() };
    press(&mut app, &[Key::Char('e')]);
    assert_eq!(app.view, View::CardForm { mode: FormMode::Edit { card_id: ids[0].clone() } });
    app.cancel_card();
    assert_eq!(app.view, View::Board { selected_column: 2, selection: Selection::Nothing });
}

#[test]
fn a_request_comes_back_with_the_board_as_it_was_saved() {
    let project = Project::with_board();
    let (mut app, ids) = project.app_with_cards(&["Card"]);
    app.start_create_card();
    *app.get_current_field_input_mut() = " New ".to_string();
    let request = app.prepare_submit().unwrap();

    let saved = app.perform(request).unwrap();

    assert_eq!(saved, project.stored());
    assert_eq!(saved.cards.len(), 2);
    assert_eq!(saved.cards[1].title, "New");
    assert_eq!(saved.cards[1].column_id, "todo");
    assert_eq!(app.board.as_ref().unwrap().cards.len(), 1);

    app.view = View::ConfirmDelete { card_id: ids[0].clone() };
    let request = app.delete_request().unwrap();
    let saved = app.perform(request).unwrap();
    assert_eq!(saved, project.stored());
    assert!(saved.get_card(&ids[0]).is_none());
}

#[test]
fn a_form_without_any_title_is_refused() {
    let project = Project::with_board();
    let (mut app, _) = project.app_with_cards(&[]);
    app.start_create_card();

    assert!(app.prepare_submit().is_none());
    assert_eq!(app.error_message, Some("Title is required".to_string()));

    app.clear_error();
    app.submit_card().unwrap();
    assert_eq!(app.error_message, Some("Title is required".to_string()));
    assert!(matches!(app.view, View::CardForm { .. }));
    assert_eq!(project.stored().next_card_number, 1);
}
