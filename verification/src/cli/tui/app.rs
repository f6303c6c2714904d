//! The terminal interface as a state machine: the view, the card form, the board as last
//! loaded, and an error to show. Keys lead to the transitions below; whatever changes the
//! stored board goes through the card service and is followed by a reload.

use crate::application::board_service::BoardServiceError;
use crate::application::card_service::card_added;
use crate::application::card_service::card_discarded;
use crate::application::card_service::card_relocated;
use crate::application::card_service::card_revised;
use crate::application::card_service::CardService;
use crate::application::card_service::CardServiceError;
use crate::cli::tui::state::CardFormData;
use crate::cli::tui::state::FormField;
use crate::cli::tui::state::FormMode;
use crate::cli::tui::state::FormModeModel;
use crate::cli::tui::state::FormModel;
use crate::cli::tui::state::InputMode;
use crate::cli::tui::state::Selection;
use crate::cli::tui::state::SelectionModel;
use crate::cli::tui::state::View;
use crate::cli::tui::state::ViewModel;
use crate::cli::tui::state::optional_entry;
use crate::domain::board::default_column_id;
use crate::domain::board::Board;
use crate::domain::board::BoardModel;
use crate::infrastructure::storage::BoardRepository;
use crate::text::find_text;
use crate::text::is_blank;
use crate::text::optional_text;
use crate::text::pop_char;
use crate::text::push_char;
use crate::text::trim;
use crate::text::trimmed;
use std::path::PathBuf;
use vstd::prelude::*;
use vstd::view::View as _;

verus! {

/// The terminal interface.
pub struct App<R: BoardRepository> {
    /// Which screen is up.
    pub view: View,
    /// What has been typed into the card form.
    pub form_data: CardFormData,
    /// The directory of the project whose board is shown.
    pub board_path: PathBuf,
    /// The board as it was last loaded; `None` before the first load.
    pub board: Option<Board>,
    /// The error to show, if any.
    pub error_message: Option<String>,
    /// The service through which the stored board is read and changed.
    pub card_service: CardService<R>,
}

/// The state of the interface, in mathematical terms.
pub struct AppModel {
    pub view: ViewModel,
    pub form: FormModel,
    pub board: Option<BoardModel>,
    pub error_message: Option<Seq<char>>,
}

/// What the interface asks of the card service.
#[derive(Debug)]
pub enum Request {
    /// Make a card.
    Create { title: String, description: Option<String>, assignee: Option<String>, column_id: String },
    /// Change a card's title, description and assignee, all three.
    Update { card_id: String, title: String, description: Option<String>, assignee: Option<String> },
    /// Move a card to a column.
    Move { card_id: String, column_id: String },
    /// Delete a card.
    Delete { card_id: String },
}

/// A request, in mathematical terms.
#[allow(inconsistent_fields)]
pub enum RequestModel {
    Create {
        title: Seq<char>,
        description: Option<Seq<char>>,
        assignee: Option<Seq<char>>,
        column_id: Seq<char>,
    },
    Update {
        card_id: Seq<char>,
        title: Seq<char>,
        description: Option<Seq<char>>,
        assignee: Option<Seq<char>>,
    },
    Move { card_id: Seq<char>, column_id: Seq<char> },
    Delete { card_id: Seq<char> },
}

/// Towards which neighbouring column a quick move goes.
#[derive(Debug, Clone, Copy, PartialEq, Eq)]
pub enum Side {
    Left,
    Right,
}

/// Why the interface could not do what was asked.
#[derive(Debug)]
pub enum AppError {
    /// No card is up to act on.
    NoCardSelected,
    /// The column chosen as target is not on the board.
    InvalidTargetColumn,
    /// The card service failed.
    Card(CardServiceError),
    /// The board could not be loaded.
    Board(BoardServiceError),
}

impl AppError {
    /// The message of this error.
    pub open spec fn message_text(self) -> Seq<char> {
        match self {
            AppError::NoCardSelected => "No card selected"@,
            AppError::InvalidTargetColumn => "Invalid target column"@,
            AppError::Card(error) => error.message_text(),
            AppError::Board(error) => error.message_text(),
        }
    }

    /// The message of the error, for the user.
    pub fn message(&self) -> (text: String)
        ensures
            text@ == self.message_text(),
    {
        match self {
            AppError::NoCardSelected => String::from_str("No card selected"),
            AppError::InvalidTargetColumn => String::from_str("Invalid target column"),
            AppError::Card(error) => error.message(),
            AppError::Board(error) => error.message(),
        }
    }
}

impl vstd::view::View for Request {
    type V = RequestModel;

    open spec fn view(&self) -> RequestModel {
        match *self {
            Request::Create { title, description, assignee, column_id } => RequestModel::Create {
                title: title@,
                description: optional_text(description),
                assignee: optional_text(assignee),
                column_id: column_id@,
            },
            Request::Update { card_id, title, description, assignee } => RequestModel::Update {
                card_id: card_id@,
                title: title@,
                description: optional_text(description),
                assignee: optional_text(assignee),
            },
            Request::Move { card_id, column_id } => RequestModel::Move {
                card_id: card_id@,
                column_id: column_id@,
            },
            Request::Delete { card_id } => RequestModel::Delete { card_id: card_id@ },
        }
    }
}

impl RequestModel {
    /// The card that the request is about, if it is about one that exists already.
    pub open spec fn card_id(self) -> Option<Seq<char>> {
        match self {
            RequestModel::Create { .. } => None,
            RequestModel::Update { card_id, .. } => Some(card_id),
            RequestModel::Move { card_id, .. } => Some(card_id),
            RequestModel::Delete { card_id } => Some(card_id),
        }
    }

    /// The column that the request needs, if it needs one.
    pub open spec fn column_id(self) -> Option<Seq<char>> {
        match self {
            RequestModel::Create { column_id, .. } => Some(column_id),
            RequestModel::Move { column_id, .. } => Some(column_id),
            _ => None,
        }
    }

    /// Whether `after` is `before` with the request done on it, as the card service does it:
    /// the card made in the column asked for, the card changed in all three fields, the
    /// card moved, or the card deleted.
    pub open spec fn done_on(self, before: BoardModel, after: BoardModel) -> bool {
        match self {
            RequestModel::Create { title, description, assignee, column_id } => card_added(
                before,
                title,
                description,
                assignee,
                Some(column_id),
                after,
            ),
            RequestModel::Update { card_id, title, description, assignee } => card_revised(
                before,
                card_id,
                Some(title),
                Some(description),
                Some(assignee),
                after,
            ),
            RequestModel::Move { card_id, column_id } => card_relocated(
                before,
                card_id,
                column_id,
                after,
            ),
            RequestModel::Delete { card_id } => card_discarded(before, card_id, after),
        }
    }

    /// Whether the card service can answer the request with `error`: the board could not be
    /// loaded or saved, the card or the column that the request names is not on the board,
    /// or, for a new card, the board cannot take one.
    pub open spec fn can_fail_with(self, error: CardServiceError) -> bool {
        match error {
            CardServiceError::BoardService(inner) => inner is BoardNotFound || inner is Storage,
            CardServiceError::CardNotFound(name) => self.card_id() == Some(name@),
            CardServiceError::ColumnNotFound(name) => self.column_id() == Some(name@),
            CardServiceError::InvalidData(_) => self is Create,
            CardServiceError::Storage(_) => false,
        }
    }
}

impl RequestModel {
    /// Whether `error` is one that the interface can meet with when it has the request done:
    /// a failure of the card service that the request can meet with, or a failure of the
    /// reload that follows.
    pub open spec fn explains(self, error: AppError) -> bool {
        match error {
            AppError::Card(inner) => self.can_fail_with(inner),
            AppError::Board(inner) => inner is BoardNotFound || inner is Storage,
            _ => false,
        }
    }
}

/// The model of the board that the interface holds.
pub open spec fn optional_board(board: Option<Board>) -> Option<BoardModel> {
    match board {
        Some(board) => Some(board@),
        None => None,
    }
}

impl<R: BoardRepository> vstd::view::View for App<R> {
    type V = AppModel;

    open spec fn view(&self) -> AppModel {
        AppModel {
            view: self.view@,
            form: self.form_data@,
            board: optional_board(self.board),
            error_message: optional_text(self.error_message),
        }
    }
}

/// The message shown where the store has no board for the project.
pub open spec fn no_board_text() -> Seq<char> {
    "No board found. Run 'clicky init' to create one."@
}

/// The message shown where a card form is submitted without a title.
pub open spec fn title_required_text() -> Seq<char> {
    "Title is required"@
}

impl AppModel {
    /// The interface as it starts: the board screen, an empty form, no board loaded yet.
    pub open spec fn initial() -> AppModel {
        AppModel {
            view: ViewModel::initial(),
            form: FormModel::empty(),
            board: None,
            error_message: None,
        }
    }

    /// How many columns the loaded board has; none where no board is loaded.
    pub open spec fn column_count(self) -> nat {
        match self.board {
            Some(board) => board.columns.len(),
            None => 0,
        }
    }

    /// The list of cards of the column at `column`; empty where there is no such column.
    pub open spec fn cards_of(self, column: int) -> Seq<Seq<char>> {
        match self.board {
            Some(board) => if 0 <= column < board.columns.len() {
                board.columns[column].cards
            } else {
                Seq::empty()
            },
            None => Seq::empty(),
        }
    }

    /// The identifier of the column in focus.
    pub open spec fn current_column(self) -> Option<Seq<char>> {
        match self.board {
            Some(board) => if self.view.selected_column() < board.columns.len() {
                Some(board.columns[self.view.selected_column() as int].id)
            } else {
                None
            },
            None => None,
        }
    }

    /// The card under the cursor or chosen: on the board screen the card selected, or the
    /// card at the highlighted place of its column's list; on the other screens the card that
    /// the screen is about.
    pub open spec fn current_card(self) -> Option<Seq<char>> {
        match self.view {
            ViewModel::Board {
                selection: SelectionModel::Highlighted { column, card_index },
                ..
            } => if card_index < self.cards_of(column as int).len() {
                Some(self.cards_of(column as int)[card_index as int])
            } else {
                None
            },
            other => other.selected_card_id(),
        }
    }

    /// The place of the current card in its column's list: the highlighted place, where a
    /// card stands there, or the place of the selected card in the column in focus.
    pub open spec fn current_card_index(self) -> Option<int> {
        match self.view {
            ViewModel::Board {
                selection: SelectionModel::Highlighted { column, card_index },
                ..
            } => if card_index < self.cards_of(column as int).len() {
                Some(card_index as int)
            } else {
                None
            },
            ViewModel::Board {
                selected_column,
                selection: SelectionModel::Selected { card_id },
            } => self.cards_of(selected_column as int).index_of_first(card_id),
            _ => None,
        }
    }

    /// With another view.
    pub open spec fn with_view(self, view: ViewModel) -> AppModel {
        AppModel { view, ..self }
    }

    /// With an error to show.
    pub open spec fn with_error(self, text: Seq<char>) -> AppModel {
        AppModel { error_message: Some(text), ..self }
    }

    /// With no error to show.
    pub open spec fn clear_error(self) -> AppModel {
        AppModel { error_message: None, ..self }
    }

    /// After the help key. Closing help also takes the error away.
    pub open spec fn toggle_help(self) -> AppModel {
        let view = self.view.toggle_help();
        AppModel {
            view,
            error_message: if view is Help {
                self.error_message
            } else {
                None
            },
            ..self
        }
    }

    /// One column to the left, unless the first is in focus. The selection does not come
    /// along.
    pub open spec fn move_left(self) -> AppModel {
        match self.view {
            ViewModel::Board { selected_column, .. } => if selected_column > 0 {
                self.with_view(
                    ViewModel::Board {
                        selected_column: (selected_column - 1) as usize,
                        selection: SelectionModel::Nothing,
                    },
                )
            } else {
                self
            },
            _ => self,
        }
    }

    /// One column to the right, unless the last is in focus. The selection does not come
    /// along.
    pub open spec fn move_right(self) -> AppModel {
        match self.view {
            ViewModel::Board { selected_column, .. } => if selected_column + 1
                < self.column_count() {
                self.with_view(
                    ViewModel::Board {
                        selected_column: (selected_column + 1) as usize,
                        selection: SelectionModel::Nothing,
                    },
                )
            } else {
                self
            },
            _ => self,
        }
    }

    /// One card up. Without a highlight, the last card of the column in focus is
    /// highlighted, if it has a card. A selected card stays selected.
    pub open spec fn move_up(self) -> AppModel {
        match self.view {
            ViewModel::Board {
                selected_column,
                selection: SelectionModel::Highlighted { column, card_index },
            } => if card_index > 0 {
                self.with_view(
                    ViewModel::Board {
                        selected_column,
                        selection: SelectionModel::Highlighted {
                            column,
                            card_index: (card_index - 1) as usize,
                        },
                    },
                )
            } else {
                self
            },
            ViewModel::Board { selected_column, selection: SelectionModel::Nothing } => {
                let count = self.cards_of(selected_column as int).len();
                if count > 0 {
                    self.with_view(
                        ViewModel::Board {
                            selected_column,
                            selection: SelectionModel::Highlighted {
                                column: selected_column,
                                card_index: (count - 1) as usize,
                            },
                        },
                    )
                } else {
                    self
                }
            },
            _ => self,
        }
    }

    /// One card down, unless the last is highlighted. Without a highlight, the first card of
    /// the column in focus is highlighted, if it has a card. A selected card stays selected.
    pub open spec fn move_down(self) -> AppModel {
        match self.view {
            ViewModel::Board {
                selected_column,
                selection: SelectionModel::Highlighted { column, card_index },
            } => if card_index + 1 < self.cards_of(column as int).len() {
                self.with_view(
                    ViewModel::Board {
                        selected_column,
                        selection: SelectionModel::Highlighted {
                            column,
                            card_index: (card_index + 1) as usize,
                        },
                    },
                )
            } else {
                self
            },
            ViewModel::Board { selected_column, selection: SelectionModel::Nothing } => {
                if self.cards_of(selected_column as int).len() > 0 {
                    self.with_view(
                        ViewModel::Board {
                            selected_column,
                            selection: SelectionModel::Highlighted {
                                column: selected_column,
                                card_index: 0,
                            },
                        },
                    )
                } else {
                    self
                }
            },
            _ => self,
        }
    }

    /// Into the cards of the column in focus: its first place is highlighted.
    pub open spec fn enter_cards(self) -> AppModel {
        match self.view {
            ViewModel::Board { selected_column, .. } => self.with_view(
                ViewModel::Board {
                    selected_column,
                    selection: SelectionModel::Highlighted {
                        column: selected_column,
                        card_index: 0,
                    },
                },
            ),
            _ => self,
        }
    }

    /// The enter key on a card: a highlighted card becomes the selected one, by its
    /// identifier; a selected card opens in the detail screen.
    pub open spec fn enter_card_detail(self) -> AppModel {
        match self.view {
            ViewModel::Board { selected_column, selection: SelectionModel::Highlighted { .. } } => {
                match self.current_card() {
                    Some(card_id) => self.with_view(
                        ViewModel::Board {
                            selected_column,
                            selection: SelectionModel::Selected { card_id },
                        },
                    ),
                    None => self,
                }
            },
            ViewModel::Board { selection: SelectionModel::Selected { card_id }, .. } => {
                self.with_view(ViewModel::CardDetail { card_id })
            },
            _ => self,
        }
    }

    /// Straight to the detail screen of the card highlighted or selected on the board.
    pub open spec fn open_card_detail(self) -> AppModel {
        match self.view {
            ViewModel::Board { .. } => match self.current_card() {
                Some(card_id) => self.with_view(ViewModel::CardDetail { card_id }),
                None => self,
            },
            _ => self,
        }
    }

    /// Out of the cards: nothing is highlighted or selected any more.
    pub open spec fn exit_cards(self) -> AppModel {
        match self.view {
            ViewModel::Board { selected_column, .. } => self.with_view(
                ViewModel::Board { selected_column, selection: SelectionModel::Nothing },
            ),
            _ => self,
        }
    }

    /// The place, among the columns of the loaded board, of the first column called
    /// `column_id`; the first place where the board has no such column.
    pub open spec fn column_position(self, column_id: Seq<char>) -> usize {
        match self.board {
            Some(board) => match board.column_index(column_id) {
                Some(k) => k as usize,
                None => 0,
            },
            None => 0,
        }
    }

    /// The column that comes into focus when the view goes back to the board: the column of
    /// the card that the detail screen or the form is about, the column that the form makes
    /// a card for, and on any other screen the column that was in focus.
    pub open spec fn return_column(self) -> usize {
        match self.view {
            ViewModel::CardDetail { card_id } => self.column_of_card(card_id),
            ViewModel::CardForm { mode: FormModeModel::Edit { card_id } } => self.column_of_card(
                card_id,
            ),
            ViewModel::CardForm { mode: FormModeModel::Create { column_id } } => {
                self.column_position(column_id)
            },
            other => other.selected_column(),
        }
    }

    /// The board screen with the column to go back to in focus and nothing selected.
    pub open spec fn back_on_board(self) -> ViewModel {
        ViewModel::Board {
            selected_column: self.return_column(),
            selection: SelectionModel::Nothing,
        }
    }

    /// From the detail screen back to the board: the card's column is in focus, and nothing
    /// is selected.
    pub open spec fn exit_card_detail(self) -> AppModel {
        match self.view {
            ViewModel::CardDetail { .. } => self.with_view(self.back_on_board()),
            _ => self,
        }
    }

    /// The column that a new card would go to: the one in focus, or the default one.
    pub open spec fn new_card_column(self) -> Seq<char> {
        match self.current_column() {
            Some(id) => id,
            None => default_column_id(),
        }
    }

    /// To an empty form for a new card in the column in focus.
    pub open spec fn start_create_card(self) -> AppModel {
        AppModel {
            view: ViewModel::CardForm {
                mode: FormModeModel::Create { column_id: self.new_card_column() },
            },
            form: FormModel::empty(),
            ..self
        }
    }

    /// From the detail screen to the form, filled from the card; stays where the loaded
    /// board has no such card.
    pub open spec fn start_edit_card(self) -> AppModel {
        match (self.view, self.board) {
            (ViewModel::CardDetail { card_id }, Some(board)) => match board.card_index(card_id) {
                Some(i) => AppModel {
                    view: ViewModel::CardForm { mode: FormModeModel::Edit { card_id } },
                    form: FormModel::for_edit(
                        board.cards[i].title,
                        board.cards[i].description,
                        board.cards[i].assignee,
                    ),
                    ..self
                },
                None => self,
            },
            _ => self,
        }
    }

    /// From the detail screen to the question whether to delete the card.
    pub open spec fn start_delete_card(self) -> AppModel {
        match self.view {
            ViewModel::CardDetail { card_id } => self.with_view(
                ViewModel::ConfirmDelete { card_id },
            ),
            _ => self,
        }
    }

    /// From the question back to the detail screen; nothing is deleted.
    pub open spec fn cancel_delete_card(self) -> AppModel {
        match self.view {
            ViewModel::ConfirmDelete { card_id } => self.with_view(
                ViewModel::CardDetail { card_id },
            ),
            _ => self,
        }
    }

    /// The next field of the form in focus.
    pub open spec fn next_form_field(self) -> AppModel {
        AppModel { form: FormModel { current_field: self.form.current_field.next(), ..self.form }, ..self }
    }

    /// The previous field of the form in focus.
    pub open spec fn prev_form_field(self) -> AppModel {
        AppModel { form: FormModel { current_field: self.form.current_field.prev(), ..self.form }, ..self }
    }

    /// With another input mode.
    pub open spec fn with_input_mode(self, input_mode: InputMode) -> AppModel {
        AppModel { form: FormModel { input_mode, ..self.form }, ..self }
    }

    /// A character typed into the field in focus. Typing starts editing: the first character
    /// typed both starts it and is kept.
    pub open spec fn type_char(self, c: char) -> AppModel {
        AppModel {
            form: FormModel {
                input_mode: InputMode::Editing,
                ..self.form.with_current_text(self.form.current_text().push(c))
            },
            ..self
        }
    }

    /// The last character of the field in focus taken away, if it has one.
    pub open spec fn erase_char(self) -> AppModel {
        if self.form.current_text().len() > 0 {
            AppModel {
                form: self.form.with_current_text(self.form.current_text().drop_last()),
                ..self
            }
        } else {
            self
        }
    }

    /// The form given up: what was typed is gone, and the board is up with the form's column
    /// in focus and nothing selected.
    pub open spec fn cancel_card(self) -> AppModel {
        AppModel { view: self.back_on_board(), form: FormModel::empty(), ..self }
    }

    /// The place, among the columns of the loaded board, of the column that holds the card;
    /// the first where the board does not say.
    pub open spec fn column_of_card(self, card_id: Seq<char>) -> usize {
        match self.board {
            Some(board) => match board.card_index(card_id) {
                Some(i) => match board.column_index(board.cards[i].column_id) {
                    Some(k) => k as usize,
                    None => 0,
                },
                None => 0,
            },
            None => 0,
        }
    }

    /// From the board or the detail screen to the move dialogue for the current card, the
    /// card's own column as target to start with.
    pub open spec fn start_move_card(self) -> AppModel {
        if self.view is Board || self.view is CardDetail {
            match self.current_card() {
                Some(card_id) => AppModel {
                    view: ViewModel::MoveCard {
                        card_id,
                        target_column: self.column_of_card(card_id),
                    },
                    error_message: None,
                    ..self
                },
                None => self,
            }
        } else {
            self
        }
    }

    /// The target of the move one column to the left, unless it is the first.
    pub open spec fn move_card_left(self) -> AppModel {
        match self.view {
            ViewModel::MoveCard { card_id, target_column } => if target_column > 0 {
                self.with_view(
                    ViewModel::MoveCard { card_id, target_column: (target_column - 1) as usize },
                )
            } else {
                self
            },
            _ => self,
        }
    }

    /// The target of the move one column to the right, unless it is the last.
    pub open spec fn move_card_right(self) -> AppModel {
        match self.view {
            ViewModel::MoveCard { card_id, target_column } => if target_column + 1
                < self.column_count() {
                self.with_view(
                    ViewModel::MoveCard { card_id, target_column: (target_column + 1) as usize },
                )
            } else {
                self
            },
            _ => self,
        }
    }

    /// The move given up: back to the detail screen, the card where it was.
    pub open spec fn cancel_move_card(self) -> AppModel {
        match self.view {
            ViewModel::MoveCard { card_id, .. } => AppModel {
                view: ViewModel::CardDetail { card_id },
                error_message: None,
                ..self
            },
            _ => self,
        }
    }

    /// After a reload: with the board that was loaded and no error, or, where the store had
    /// no board, with the board as before and a message that says so.
    pub open spec fn board_reloaded(self, loaded: Option<BoardModel>) -> AppModel {
        match loaded {
            Some(board) => AppModel { board: Some(board), error_message: None, ..self },
            None => self.with_error(no_board_text()),
        }
    }

    /// What submitting the form asks of the card service: a new card, or the change of the
    /// card being edited, with the title trimmed and blank fields left out. Nothing where no
    /// form is up or the form has no title.
    pub open spec fn submit_request(self) -> Option<RequestModel> {
        match self.view {
            ViewModel::CardForm { mode } => if self.form.is_valid() {
                Some(
                    match mode {
                        FormModeModel::Create { column_id } => RequestModel::Create {
                            title: trimmed(self.form.title),
                            description: optional_entry(self.form.description),
                            assignee: optional_entry(self.form.assignee),
                            column_id,
                        },
                        FormModeModel::Edit { card_id } => RequestModel::Update {
                            card_id,
                            title: trimmed(self.form.title),
                            description: optional_entry(self.form.description),
                            assignee: optional_entry(self.form.assignee),
                        },
                    },
                )
            } else {
                None
            },
            _ => None,
        }
    }

    /// The interface after an attempt to submit that asks nothing of the service: as before,
    /// but for the message that a title is required where a form without one is up.
    pub open spec fn submit_refused(self) -> AppModel {
        if self.view is CardForm && !self.form.is_valid() {
            self.with_error(title_required_text())
        } else {
            self
        }
    }

    /// After the form was submitted and the board reloaded: the form is empty and the board
    /// is up.
    pub open spec fn finish_submit(self, loaded: Option<BoardModel>) -> AppModel {
        AppModel {
            view: ViewModel::initial(),
            form: FormModel::empty(),
            ..self.board_reloaded(loaded)
        }
    }

    /// What confirming the move asks of the card service, or why it cannot be asked.
    pub open spec fn move_request(self) -> Result<RequestModel, AppError> {
        match self.view {
            ViewModel::MoveCard { card_id, target_column } => if target_column
                < self.column_count() {
                Ok(
                    RequestModel::Move {
                        card_id,
                        column_id: self.board.unwrap().columns[target_column as int].id,
                    },
                )
            } else {
                Err(AppError::InvalidTargetColumn)
            },
            _ => Err(AppError::NoCardSelected),
        }
    }

    /// After the move was done and the board reloaded: the detail screen of the card, and no
    /// error.
    pub open spec fn finish_move(self, loaded: Option<BoardModel>) -> AppModel {
        match self.view {
            ViewModel::MoveCard { card_id, .. } => AppModel {
                view: ViewModel::CardDetail { card_id },
                error_message: None,
                ..self.board_reloaded(loaded)
            },
            _ => self,
        }
    }

    /// The column that a quick move to `side` goes to: the neighbour of the column in focus,
    /// where a card is selected and the board has that neighbour.
    pub open spec fn quick_move_target(self, side: Side) -> Option<usize> {
        match self.view {
            ViewModel::Board { selected_column, selection: SelectionModel::Selected { .. } } => {
                match side {
                    Side::Left => if 0 < selected_column <= self.column_count() {
                        Some((selected_column - 1) as usize)
                    } else {
                        None
                    },
                    Side::Right => if selected_column + 1 < self.column_count() {
                        Some((selected_column + 1) as usize)
                    } else {
                        None
                    },
                }
            },
            _ => None,
        }
    }

    /// What a quick move to `side` asks of the card service; nothing where there is no
    /// column to go to.
    pub open spec fn quick_move_request(self, side: Side) -> Option<RequestModel> {
        match (self.quick_move_target(side), self.view.selected_card_id()) {
            (Some(target), Some(card_id)) => Some(
                RequestModel::Move {
                    card_id,
                    column_id: self.board.unwrap().columns[target as int].id,
                },
            ),
            _ => None,
        }
    }

    /// After a quick move was done and the board reloaded: the focus has followed the card
    /// to its new column, and the card is still the selected one.
    pub open spec fn finish_quick_move(self, side: Side, loaded: Option<BoardModel>) -> AppModel {
        match (self.quick_move_target(side), self.view.selected_card_id()) {
            (Some(target), Some(card_id)) => AppModel {
                view: ViewModel::Board {
                    selected_column: target,
                    selection: SelectionModel::Selected { card_id },
                },
                ..self.board_reloaded(loaded)
            },
            _ => self,
        }
    }

    /// What confirming the deletion asks of the card service; nothing where no deletion is
    /// in question.
    pub open spec fn delete_request(self) -> Option<RequestModel> {
        match self.view {
            ViewModel::ConfirmDelete { card_id } => Some(RequestModel::Delete { card_id }),
            _ => None,
        }
    }

    /// After the card was deleted: the board is up, with nothing selected.
    pub open spec fn finish_delete(self) -> AppModel {
        self.with_view(ViewModel::initial())
    }

    /// Whether `after` is this state with an error to show that starts with `prefix`: how a
    /// failure of the service is shown, the view and the form being left as they are.
    pub open spec fn failed_with(self, prefix: Seq<char>, after: AppModel) -> bool {
        exists|detail: Seq<char>| after == #[trigger] self.with_error(prefix + detail)
    }

    /// Whether `after` can follow this state on a reload: the store had a board, or it had
    /// none.
    pub open spec fn reloaded_to(self, after: AppModel) -> bool {
        exists|loaded: Option<BoardModel>| after == #[trigger] self.board_reloaded(loaded)
    }

    /// Whether `after` can follow this state when the form is submitted and all goes well.
    pub open spec fn submitted_to(self, after: AppModel) -> bool {
        exists|loaded: Option<BoardModel>| after == #[trigger] self.finish_submit(loaded)
    }

    /// Whether `after` can follow this state when the move is confirmed and all goes well.
    pub open spec fn moved_to(self, after: AppModel) -> bool {
        exists|loaded: Option<BoardModel>| after == #[trigger] self.finish_move(loaded)
    }

    /// Whether `after` can follow this state on a quick move to `side` when all goes well.
    pub open spec fn quick_moved_to(self, side: Side, after: AppModel) -> bool {
        exists|loaded: Option<BoardModel>|
            after == #[trigger] self.finish_quick_move(side, loaded)
    }

    /// Whether `after` can follow this state when the deletion is confirmed and the card
    /// deleted: the board is up, reloaded if the reload went well.
    pub open spec fn deleted_to(self, after: AppModel) -> bool {
        after == self.finish_delete() || exists|loaded: Option<BoardModel>|
            after == (#[trigger] self.board_reloaded(loaded)).finish_delete()
    }
}

impl<R: BoardRepository> App<R> {
    /// Whether `other` shows the same project through the same service: what no transition
    /// changes.
    pub open spec fn same_project(self, other: Self) -> bool {
        self.board_path == other.board_path && self.card_service == other.card_service
    }

    /// The interface for the project at `board_path`, its board kept by `repository`. It
    /// starts on the board screen with no board loaded: `load_board` loads it.
    pub fn new(board_path: PathBuf, repository: R) -> (app: Self)
        ensures
            app@ == AppModel::initial(),
            app.board_path == board_path,
            app.card_service.boards().store() == repository,
    {
        App {
            view: View::default(),
            form_data: CardFormData::default(),
            board_path,
            board: None,
            error_message: None,
            card_service: CardService::new(repository),
        }
    }

    /// Takes the error away.
    pub fn clear_error(&mut self)
        ensures
            final(self)@ == old(self)@.clear_error(),
            final(self).same_project(*old(self)),
    {
        self.error_message = None;
    }

    /// Opens the help overlay over the view that is up, or closes it back to the view under
    /// it. Closing help also takes the error away.
    pub fn toggle_help(&mut self)
        ensures
            final(self)@ == old(self)@.toggle_help(),
            final(self).same_project(*old(self)),
    {
        let mut view = View::default();
        std::mem::swap(&mut self.view, &mut view);
        let next = view.toggle_help();
        if !next.is_help() {
            self.error_message = None;
        }
        self.view = next;
    }

    /// How many columns the loaded board has.
    pub fn column_count(&self) -> (count: usize)
        ensures
            count == self@.column_count(),
    {
        match &self.board {
            Some(board) => board.columns.len(),
            None => 0,
        }
    }

    /// How many cards the column at `column` lists.
    pub fn card_count(&self, column: usize) -> (count: usize)
        ensures
            count == self@.cards_of(column as int).len(),
    {
        match &self.board {
            Some(board) => if column < board.columns.len() {
                board.columns[column].cards.len()
            } else {
                0
            },
            None => 0,
        }
    }

    /// The card at place `index` of the list of the column at `column`.
    pub fn card_at(&self, column: usize, index: usize) -> (card_id: Option<String>)
        ensures
            optional_text(card_id) == if index < self@.cards_of(column as int).len() {
                Some(self@.cards_of(column as int)[index as int])
            } else {
                None
            },
    {
        match &self.board {
            Some(board) => if column < board.columns.len() && index
                < board.columns[column].cards.len() {
                Some(board.columns[column].cards[index].clone())
            } else {
                None
            },
            None => None,
        }
    }

    /// The identifier of the column in focus.
    pub fn get_current_column(&self) -> (column_id: Option<&str>)
        ensures
            match column_id {
                Some(id) => self@.current_column() == Some(id@),
                None => self@.current_column() is None,
            },
    {
        let selected = self.view.selected_column();
        match &self.board {
            Some(board) => if selected < board.columns.len() {
                Some(board.columns[selected].id.as_str())
            } else {
                None
            },
            None => None,
        }
    }

    /// The card under the cursor or chosen, if there is one.
    pub fn selected_card_id(&self) -> (card_id: Option<String>)
        ensures
            optional_text(card_id) == self@.current_card(),
    {
        match &self.view {
            View::Board { selection: Selection::Highlighted { column, card_index }, .. } => {
                self.card_at(*column, *card_index)
            },
            other => match other.selected_card_id() {
                Some(id) => Some(String::from_str(id)),
                None => None,
            },
        }
    }

    /// The place of the current card in its column's list.
    pub fn get_selected_card_index(&self) -> (index: Option<usize>)
        ensures
            match index {
                Some(i) => self@.current_card_index() == Some(i as int),
                None => self@.current_card_index() is None,
            },
    {
        match &self.view {
            View::Board { selection: Selection::Highlighted { column, card_index }, .. } => {
                if *card_index < self.card_count(*column) {
                    Some(*card_index)
                } else {
                    None
                }
            },
            View::Board { selected_column, selection: Selection::Selected { card_id } } => {
                match &self.board {
                    Some(board) => if *selected_column < board.columns.len() {
                        find_text(&board.columns[*selected_column].cards, card_id.as_str())
                    } else {
                        proof {
                            Seq::<Seq<char>>::empty().index_of_first_ensures(card_id@);
                        }
                        None
                    },
                    None => {
                        proof {
                            Seq::<Seq<char>>::empty().index_of_first_ensures(card_id@);
                        }
                        None
                    },
                }
            },
            _ => None,
        }
    }

    /// Moves the focus one column to the left, unless the first column has it. The
    /// selection does not come along.
    pub fn move_left(&mut self)
        ensures
            final(self)@ == old(self)@.move_left(),
            final(self).same_project(*old(self)),
    {
        let next = match &self.view {
            View::Board { selected_column, .. } => if *selected_column > 0 {
                Some(
                    View::Board {
                        selected_column: *selected_column - 1,
                        selection: Selection::Nothing,
                    },
                )
            } else {
                None
            },
            _ => None,
        };
        if let Some(view) = next {
            self.view = view;
        }
    }

    /// Moves the focus one column to the right, unless the last column has it. The
    /// selection does not come along.
    pub fn move_right(&mut self)
        ensures
            final(self)@ == old(self)@.move_right(),
            final(self).same_project(*old(self)),
    {
        let count = self.column_count();
        let next = match &self.view {
            View::Board { selected_column, .. } => if *selected_column < count
                && *selected_column + 1 < count {
                Some(
                    View::Board {
                        selected_column: *selected_column + 1,
                        selection: Selection::Nothing,
                    },
                )
            } else {
                None
            },
            _ => None,
        };
        if let Some(view) = next {
            self.view = view;
        }
    }

    /// Moves the highlight one card up. Without a highlight, highlights the last card of
    /// the column in focus, if it has a card.
    pub fn move_up(&mut self)
        ensures
            final(self)@ == old(self)@.move_up(),
            final(self).same_project(*old(self)),
    {
        let next = match &self.view {
            View::Board {
                selected_column,
                selection: Selection::Highlighted { column, card_index },
            } => if *card_index > 0 {
                Some(
                    View::Board {
                        selected_column: *selected_column,
                        selection: Selection::Highlighted {
                            column: *column,
                            card_index: *card_index - 1,
                        },
                    },
                )
            } else {
                None
            },
            View::Board { selected_column, selection: Selection::Nothing } => {
                let count = self.card_count(*selected_column);
                if count > 0 {
                    Some(
                        View::Board {
                            selected_column: *selected_column,
                            selection: Selection::Highlighted {
                                column: *selected_column,
                                card_index: count - 1,
                            },
                        },
                    )
                } else {
                    None
                }
            },
            _ => None,
        };
        if let Some(view) = next {
            self.view = view;
        }
    }

    /// Moves the highlight one card down, unless the last card has it. Without a highlight,
    /// highlights the first card of the column in focus, if it has a card.
    pub fn move_down(&mut self)
        ensures
            final(self)@ == old(self)@.move_down(),
            final(self).same_project(*old(self)),
    {
        let next = match &self.view {
            View::Board {
                selected_column,
                selection: Selection::Highlighted { column, card_index },
            } => {
                let count = self.card_count(*column);
                if *card_index < count && *card_index + 1 < count {
                    Some(
                        View::Board {
                            selected_column: *selected_column,
                            selection: Selection::Highlighted {
                                column: *column,
                                card_index: *card_index + 1,
                            },
                        },
                    )
                } else {
                    None
                }
            },
            View::Board { selected_column, selection: Selection::Nothing } => {
                if self.card_count(*selected_column) > 0 {
                    Some(
                        View::Board {
                            selected_column: *selected_column,
                            selection: Selection::Highlighted {
                                column: *selected_column,
                                card_index: 0,
                            },
                        },
                    )
                } else {
                    None
                }
            },
            _ => None,
        };
        if let Some(view) = next {
            self.view = view;
        }
    }

    /// Goes into the cards of the column in focus: its first place is highlighted.
    pub fn enter_cards(&mut self)
        ensures
            final(self)@ == old(self)@.enter_cards(),
            final(self).same_project(*old(self)),
    {
        let next = match &self.view {
            View::Board { selected_column, .. } => Some(
                View::Board {
                    selected_column: *selected_column,
                    selection: Selection::Highlighted {
                        column: *selected_column,
                        card_index: 0,
                    },
                },
            ),
            _ => None,
        };
        if let Some(view) = next {
            self.view = view;
        }
    }

    /// The enter key on a card. A highlighted card becomes the selected one: from then on
    /// the selection goes by the card's identifier and stays with the card when lists change.
    /// A selected card opens in the detail screen.
    pub fn enter_card_detail(&mut self)
        ensures
            final(self)@ == old(self)@.enter_card_detail(),
            final(self).same_project(*old(self)),
    {
        let next = match &self.view {
            View::Board { selected_column, selection: Selection::Highlighted { column, card_index } } => {
                match self.card_at(*column, *card_index) {
                    Some(card_id) => Some(
                        View::Board {
                            selected_column: *selected_column,
                            selection: Selection::Selected { card_id },
                        },
                    ),
                    None => None,
                }
            },
            View::Board { selection: Selection::Selected { card_id }, .. } => Some(
                View::CardDetail { card_id: card_id.clone() },
            ),
            _ => None,
        };
        if let Some(view) = next {
            self.view = view;
        }
    }

    /// Opens the detail screen of the card highlighted or selected on the board.
    pub fn open_card_detail(&mut self)
        ensures
            final(self)@ == old(self)@.open_card_detail(),
            final(self).same_project(*old(self)),
    {
        let next = match &self.view {
            View::Board { .. } => match self.selected_card_id() {
                Some(card_id) => Some(View::CardDetail { card_id }),
                None => None,
            },
            _ => None,
        };
        if let Some(view) = next {
            self.view = view;
        }
    }

    /// Leaves the cards: nothing is highlighted or selected any more.
    pub fn exit_cards(&mut self)
        ensures
            final(self)@ == old(self)@.exit_cards(),
            final(self).same_project(*old(self)),
    {
        let next = match &self.view {
            View::Board { selected_column, .. } => Some(
                View::Board { selected_column: *selected_column, selection: Selection::Nothing },
            ),
            _ => None,
        };
        if let Some(view) = next {
            self.view = view;
        }
    }

    /// Gives the selection up: the card is no longer selected, and nothing is highlighted.
    pub fn deselect_card(&mut self)
        ensures
            final(self)@ == old(self)@.exit_cards(),
            final(self).same_project(*old(self)),
    {
        self.exit_cards();
    }

    /// The column that comes into focus when the view goes back to the board.
    pub fn return_column(&self) -> (column: usize)
        ensures
            column == self@.return_column(),
    {
        match &self.view {
            View::CardDetail { card_id } => self.column_of_card(card_id.as_str()),
            View::CardForm { mode: FormMode::Edit { card_id } } => self.column_of_card(
                card_id.as_str(),
            ),
            View::CardForm { mode: FormMode::Create { column_id } } => match &self.board {
                Some(board) => match board.find_column(column_id.as_str()) {
                    Some(k) => k,
                    None => 0,
                },
                None => 0,
            },
            other => other.selected_column(),
        }
    }

    /// Leaves the detail screen for the board: the card's column is in focus, and nothing is
    /// selected.
    pub fn exit_card_detail(&mut self)
        ensures
            final(self)@ == old(self)@.exit_card_detail(),
            final(self).same_project(*old(self)),
    {
        let leave = match &self.view {
            View::CardDetail { .. } => true,
            _ => false,
        };
        if leave {
            let selected_column = self.return_column();
            self.view = View::Board { selected_column, selection: Selection::Nothing };
        }
    }
}

impl<R: BoardRepository> App<R> {
    /// Opens an empty form for a new card in the column in focus (in "todo" where no column
    /// is).
    pub fn start_create_card(&mut self)
        ensures
            final(self)@ == old(self)@.start_create_card(),
            final(self).same_project(*old(self)),
    {
        let column_id = match self.get_current_column() {
            Some(id) => String::from_str(id),
            None => String::from_str("todo"),
        };
        self.form_data = CardFormData::default();
        self.view = View::CardForm { mode: FormMode::Create { column_id } };
    }

    /// Opens the form for the card of the detail screen, filled from the card. Stays on the
    /// detail screen where the loaded board has no such card.
    pub fn start_edit_card(&mut self)
        ensures
            final(self)@ == old(self)@.start_edit_card(),
            final(self).same_project(*old(self)),
    {
        let next = match (&self.view, &self.board) {
            (View::CardDetail { card_id }, Some(board)) => match board.find_card(
                card_id.as_str(),
            ) {
                Some(i) => {
                    let card = &board.cards[i];
                    Some(
                        (
                            card_id.clone(),
                            CardFormData::for_edit(
                                card.title.clone(),
                                card.description.clone(),
                                card.assignee.clone(),
                            ),
                        ),
                    )
                },
                None => None,
            },
            _ => None,
        };
        if let Some((card_id, form)) = next {
            self.form_data = form;
            self.view = View::CardForm { mode: FormMode::Edit { card_id } };
        }
    }

    /// Asks whether to delete the card of the detail screen.
    pub fn start_delete_card(&mut self)
        ensures
            final(self)@ == old(self)@.start_delete_card(),
            final(self).same_project(*old(self)),
    {
        let next = match &self.view {
            View::CardDetail { card_id } => Some(View::ConfirmDelete { card_id: card_id.clone() }),
            _ => None,
        };
        if let Some(view) = next {
            self.view = view;
        }
    }

    /// Answers the question with no: back to the detail screen, nothing deleted.
    pub fn cancel_delete_card(&mut self)
        ensures
            final(self)@ == old(self)@.cancel_delete_card(),
            final(self).same_project(*old(self)),
    {
        let next = match &self.view {
            View::ConfirmDelete { card_id } => Some(View::CardDetail { card_id: card_id.clone() }),
            _ => None,
        };
        if let Some(view) = next {
            self.view = view;
        }
    }

    /// Puts the next field of the form in focus; after the last, the first.
    pub fn next_form_field(&mut self)
        ensures
            final(self)@ == old(self)@.next_form_field(),
            final(self).same_project(*old(self)),
    {
        self.form_data.current_field = self.form_data.current_field.next();
    }

    /// Puts the previous field of the form in focus; before the first, the last.
    pub fn prev_form_field(&mut self)
        ensures
            final(self)@ == old(self)@.prev_form_field(),
            final(self).same_project(*old(self)),
    {
        self.form_data.current_field = self.form_data.current_field.prev();
    }

    /// The text of the field in focus, to be typed into: what is written through the
    /// reference goes to that field, and nothing else of the interface changes.
    pub fn get_current_field_input_mut(&mut self) -> (field: &mut String)
        ensures
            field@ == old(self)@.form.current_text(),
            final(self)@ == (AppModel {
                form: old(self)@.form.with_current_text(final(field)@),
                ..old(self)@
            }),
            final(self).same_project(*old(self)),
    {
        self.form_data.current_field_mut()
    }

    /// Starts or stops editing the field in focus.
    pub fn set_input_mode(&mut self, input_mode: InputMode)
        ensures
            final(self)@ == old(self)@.with_input_mode(input_mode),
            final(self).same_project(*old(self)),
    {
        self.form_data.input_mode = input_mode;
    }

    /// Types a character into the field in focus, and starts editing where it had not
    /// started: the first character typed is kept.
    pub fn type_char(&mut self, c: char)
        ensures
            final(self)@ == old(self)@.type_char(c),
            final(self).same_project(*old(self)),
    {
        self.form_data.input_mode = InputMode::Editing;
        match self.form_data.current_field {
            FormField::Title => push_char(&mut self.form_data.title, c),
            FormField::Description => push_char(&mut self.form_data.description, c),
            FormField::Assignee => push_char(&mut self.form_data.assignee, c),
        }
    }

    /// Takes the last character off the field in focus, if it has one.
    pub fn erase_char(&mut self)
        ensures
            final(self)@ == old(self)@.erase_char(),
            final(self).same_project(*old(self)),
    {
        match self.form_data.current_field {
            FormField::Title => {
                pop_char(&mut self.form_data.title);
            },
            FormField::Description => {
                pop_char(&mut self.form_data.description);
            },
            FormField::Assignee => {
                pop_char(&mut self.form_data.assignee);
            },
        }
    }

    /// Gives the form up: what was typed is gone, whatever it was, and the board is up with
    /// the form's column in focus. Nothing is asked of the card service, so the stored board
    /// stays as it is.
    pub fn cancel_card(&mut self)
        ensures
            final(self)@ == old(self)@.cancel_card(),
            final(self).same_project(*old(self)),
    {
        let selected_column = self.return_column();
        self.form_data = CardFormData::default();
        self.view = View::Board { selected_column, selection: Selection::Nothing };
    }

    /// The place, among the columns of the loaded board, of the column that holds the card.
    fn column_of_card(&self, card_id: &str) -> (column: usize)
        ensures
            column == self@.column_of_card(card_id@),
    {
        match &self.board {
            Some(board) => match board.find_card(card_id) {
                Some(i) => match board.find_column(board.cards[i].column_id.as_str()) {
                    Some(k) => k,
                    None => 0,
                },
                None => 0,
            },
            None => 0,
        }
    }

    /// Opens the move dialogue for the current card, from the board or from the detail
    /// screen. The target starts at the card's own column; the card itself does not move
    /// before the move is confirmed.
    pub fn start_move_card(&mut self)
        ensures
            final(self)@ == old(self)@.start_move_card(),
            final(self).same_project(*old(self)),
    {
        let applies = match &self.view {
            View::Board { .. } => true,
            View::CardDetail { .. } => true,
            _ => false,
        };
        if applies {
            if let Some(card_id) = self.selected_card_id() {
                let target_column = self.column_of_card(card_id.as_str());
                self.view = View::MoveCard { card_id, target_column };
                self.error_message = None;
            }
        }
    }

    /// Moves the target of the move one column to the left, unless it is the first.
    pub fn move_card_left(&mut self)
        ensures
            final(self)@ == old(self)@.move_card_left(),
            final(self).same_project(*old(self)),
    {
        let next = match &self.view {
            View::MoveCard { card_id, target_column } => if *target_column > 0 {
                Some(
                    View::MoveCard { card_id: card_id.clone(), target_column: *target_column - 1 },
                )
            } else {
                None
            },
            _ => None,
        };
        if let Some(view) = next {
            self.view = view;
        }
    }

    /// Moves the target of the move one column to the right, unless it is the last.
    pub fn move_card_right(&mut self)
        ensures
            final(self)@ == old(self)@.move_card_right(),
            final(self).same_project(*old(self)),
    {
        let count = self.column_count();
        let next = match &self.view {
            View::MoveCard { card_id, target_column } => if *target_column < count
                && *target_column + 1 < count {
                Some(
                    View::MoveCard { card_id: card_id.clone(), target_column: *target_column + 1 },
                )
            } else {
                None
            },
            _ => None,
        };
        if let Some(view) = next {
            self.view = view;
        }
    }

    /// Gives the move up: back to the detail screen, the target forgotten. Nothing is asked
    /// of the card service, so the card stays in its column.
    pub fn cancel_move_card(&mut self)
        ensures
            final(self)@ == old(self)@.cancel_move_card(),
            final(self).same_project(*old(self)),
    {
        let next = match &self.view {
            View::MoveCard { card_id, .. } => Some(View::CardDetail { card_id: card_id.clone() }),
            _ => None,
        };
        if let Some(view) = next {
            self.view = view;
            self.error_message = None;
        }
    }

    /// Takes in what a reload brought: the board that was loaded, or, where the store had
    /// none, the message that says so.
    pub fn board_reloaded(&mut self, loaded: Option<Board>)
        ensures
            final(self)@ == old(self)@.board_reloaded(optional_board(loaded)),
            final(self).same_project(*old(self)),
    {
        match loaded {
            Some(board) => {
                self.board = Some(board);
                self.error_message = None;
            },
            None => {
                self.error_message = Some(
                    String::from_str("No board found. Run 'clicky init' to create one."),
                );
            },
        }
    }

    /// What submitting the form asks of the card service. Where a form is up without a
    /// title, nothing is asked and the message that a title is required is set; what was
    /// typed stays.
    pub fn prepare_submit(&mut self) -> (request: Option<Request>)
        ensures
            match request {
                Some(request) => old(self)@.submit_request() == Some(request@) && final(self)@
                    == old(self)@,
                None => old(self)@.submit_request() is None && final(self)@
                    == old(self)@.submit_refused(),
            },
            old(self)@.view is CardForm && old(self)@.form.title.len() == 0 ==> request is None
                && final(self)@ == old(self)@.with_error(title_required_text()),
            final(self).same_project(*old(self)),
    {
        let request = match &self.view {
            View::CardForm { mode } => if self.form_data.is_valid() {
                let title = String::from_str(trim(self.form_data.title.as_str()));
                let description = if is_blank(self.form_data.description.as_str()) {
                    None
                } else {
                    Some(self.form_data.description.clone())
                };
                let assignee = if is_blank(self.form_data.assignee.as_str()) {
                    None
                } else {
                    Some(self.form_data.assignee.clone())
                };
                Some(
                    match mode {
                        FormMode::Create { column_id } => Request::Create {
                            title,
                            description,
                            assignee,
                            column_id: column_id.clone(),
                        },
                        FormMode::Edit { card_id } => Request::Update {
                            card_id: card_id.clone(),
                            title,
                            description,
                            assignee,
                        },
                    },
                )
            } else {
                self.error_message = Some(String::from_str("Title is required"));
                None
            },
            _ => None,
        };
        request
    }

    /// Ends a submission that went through: takes in the reload, empties the form and
    /// brings the board up.
    pub fn finish_submit(&mut self, loaded: Option<Board>)
        ensures
            final(self)@ == old(self)@.finish_submit(optional_board(loaded)),
            final(self).same_project(*old(self)),
    {
        self.board_reloaded(loaded);
        self.form_data = CardFormData::default();
        self.view = View::default();
    }

    /// What confirming the move asks of the card service: the card to the column at the
    /// target. Fails with `NoCardSelected` where no move dialogue is up, and with
    /// `InvalidTargetColumn` where the loaded board has no column at the target.
    pub fn move_request(&self) -> (request: Result<Request, AppError>)
        ensures
            match (request, self@.move_request()) {
                (Ok(request), Ok(model)) => request@ == model,
                (Err(AppError::NoCardSelected), Err(AppError::NoCardSelected)) => true,
                (Err(AppError::InvalidTargetColumn), Err(AppError::InvalidTargetColumn)) => true,
                _ => false,
            },
    {
        match &self.view {
            View::MoveCard { card_id, target_column } => match &self.board {
                Some(board) => if *target_column < board.columns.len() {
                    Ok(
                        Request::Move {
                            card_id: card_id.clone(),
                            column_id: board.columns[*target_column].id.clone(),
                        },
                    )
                } else {
                    Err(AppError::InvalidTargetColumn)
                },
                None => Err(AppError::InvalidTargetColumn),
            },
            _ => Err(AppError::NoCardSelected),
        }
    }

    /// Ends a move that went through: takes in the reload and shows the card's details.
    pub fn finish_move(&mut self, loaded: Option<Board>)
        ensures
            final(self)@ == old(self)@.finish_move(optional_board(loaded)),
            final(self).same_project(*old(self)),
    {
        let next = match &self.view {
            View::MoveCard { card_id, .. } => Some(View::CardDetail { card_id: card_id.clone() }),
            _ => None,
        };
        if let Some(view) = next {
            self.board_reloaded(loaded);
            self.view = view;
            self.error_message = None;
        }
    }

    /// The column that a quick move to `side` goes to.
    pub fn quick_move_target(&self, side: Side) -> (target: Option<usize>)
        ensures
            target == self@.quick_move_target(side),
    {
        let count = self.column_count();
        match &self.view {
            View::Board { selected_column, selection: Selection::Selected { .. } } => match side {
                Side::Left => if 0 < *selected_column && *selected_column <= count {
                    Some(*selected_column - 1)
                } else {
                    None
                },
                Side::Right => if *selected_column < count && *selected_column + 1 < count {
                    Some(*selected_column + 1)
                } else {
                    None
                },
            },
            _ => None,
        }
    }

    /// What a quick move to `side` asks of the card service: the selected card to the
    /// neighbouring column. Nothing where no card is selected or the board ends there.
    pub fn quick_move_request(&self, side: Side) -> (request: Option<Request>)
        ensures
            match request {
                Some(request) => self@.quick_move_request(side) == Some(request@),
                None => self@.quick_move_request(side) is None,
            },
    {
        match (self.quick_move_target(side), self.view.selected_card_id(), &self.board) {
            (Some(target), Some(card_id), Some(board)) => Some(
                Request::Move {
                    card_id: String::from_str(card_id),
                    column_id: board.columns[target].id.clone(),
                },
            ),
            _ => None,
        }
    }

    /// Ends a quick move that went through: takes in the reload and lets the focus follow
    /// the card, which stays selected.
    pub fn finish_quick_move(&mut self, side: Side, loaded: Option<Board>)
        ensures
            final(self)@ == old(self)@.finish_quick_move(side, optional_board(loaded)),
            final(self).same_project(*old(self)),
    {
        let next = match (self.quick_move_target(side), self.view.selected_card_id()) {
            (Some(target), Some(card_id)) => Some(
                View::Board {
                    selected_column: target,
                    selection: Selection::Selected { card_id: String::from_str(card_id) },
                },
            ),
            _ => None,
        };
        if let Some(view) = next {
            self.board_reloaded(loaded);
            self.view = view;
        }
    }

    /// What confirming the deletion asks of the card service.
    pub fn delete_request(&self) -> (request: Option<Request>)
        ensures
            match request {
                Some(request) => self@.delete_request() == Some(request@),
                None => self@.delete_request() is None,
            },
    {
        match &self.view {
            View::ConfirmDelete { card_id } => Some(Request::Delete { card_id: card_id.clone() }),
            _ => None,
        }
    }

    /// Ends a deletion that went through: the board is up, with nothing selected.
    pub fn finish_delete(&mut self)
        ensures
            final(self)@ == old(self)@.finish_delete(),
            final(self).same_project(*old(self)),
    {
        self.view = View::default();
    }
}

impl<R: BoardRepository> App<R> {
    /// Hands a request to the card service, which loads the board, does what is asked, and
    /// saves the board. Returns the board as the service saved it: some board with the
    /// request done on it. The board that the interface holds is not touched: a reload
    /// brings the change in. Where the service fails, the error is one that the request can
    /// meet with.
    pub fn perform(&self, request: Request) -> (result: Result<Board, CardServiceError>)
        ensures
            match result {
                Ok(board) => exists|before: BoardModel| request@.done_on(before, board@),
                Err(error) => request@.can_fail_with(error),
            },
    {
        let path = self.board_path.as_path();
        let ghost asked = request@;
        match request {
            Request::Create { title, description, assignee, column_id } => {
                match self.card_service.create(path, title, description, assignee, Some(column_id)) {
                    Ok(info) => {
                        let ghost before = choose|before: BoardModel|
                            info.card_id@ == before.next_card_id() && #[trigger] card_added(
                                before,
                                title@,
                                optional_text(description),
                                optional_text(assignee),
                                Some(column_id@),
                                info.board@,
                            );
                        let result: Result<Board, CardServiceError> = Ok(info.board);
                        assert(asked.done_on(before, result->Ok_0@));
                        result
                    },
                    Err(error) => Err(error),
                }
            },
            Request::Update { card_id, title, description, assignee } => {
                match self.card_service.update(
                    path,
                    card_id.as_str(),
                    Some(title),
                    Some(description),
                    Some(assignee),
                ) {
                    Ok(board) => {
                        let ghost before = choose|before: BoardModel|
                            card_revised(
                                before,
                                card_id@,
                                Some(title@),
                                Some(optional_text(description)),
                                Some(optional_text(assignee)),
                                board@,
                            );
                        let result: Result<Board, CardServiceError> = Ok(board);
                        assert(asked.done_on(before, result->Ok_0@));
                        result
                    },
                    Err(error) => Err(error),
                }
            },
            Request::Move { card_id, column_id } => {
                match self.card_service.move_to(path, card_id.as_str(), column_id.as_str()) {
                    Ok(board) => {
                        let ghost before = choose|before: BoardModel|
                            card_relocated(before, card_id@, column_id@, board@);
                        let result: Result<Board, CardServiceError> = Ok(board);
                        assert(asked.done_on(before, result->Ok_0@));
                        result
                    },
                    Err(error) => Err(error),
                }
            },
            Request::Delete { card_id } => {
                match self.card_service.delete(path, card_id.as_str()) {
                    Ok(board) => {
                        let ghost before = choose|before: BoardModel|
                            card_discarded(before, card_id@, board@);
                        let result: Result<Board, CardServiceError> = Ok(board);
                        assert(asked.done_on(before, result->Ok_0@));
                        result
                    },
                    Err(error) => Err(error),
                }
            },
        }
    }

    /// Asks the store for the project's board: the board, or `None` where the store has
    /// none. Fails where the store has a board and it cannot be read.
    pub fn reload(&self) -> (result: Result<Option<Board>, BoardServiceError>)
        ensures
            result matches Err(error) ==> error is BoardNotFound || error is Storage,
    {
        let boards = self.card_service.board_service();
        if boards.board_exists(self.board_path.as_path()) {
            match boards.load(self.board_path.as_path()) {
                Ok(board) => Ok(Some(board)),
                Err(error) => Err(error),
            }
        } else {
            Ok(None)
        }
    }

    /// Loads the board from the store. Where the store has none, a message says so and the
    /// interface is otherwise as before; where the board cannot be read, the interface is as
    /// before and the error is returned.
    pub fn load_board(&mut self) -> (result: Result<(), BoardServiceError>)
        ensures
            match result {
                Ok(()) => old(self)@.reloaded_to(final(self)@),
                Err(error) => final(self)@ == old(self)@ && (error is BoardNotFound
                    || error is Storage),
            },
            final(self).same_project(*old(self)),
    {
        match self.reload() {
            Ok(loaded) => {
                self.board_reloaded(loaded);
                Ok(())
            },
            Err(error) => Err(error),
        }
    }

    /// Submits the card form.
    ///
    /// A form without a title (blank counts as none) is not submitted: the message that a
    /// title is required is set, the form stays up with what was typed, and nothing is asked
    /// of the card service, so no card number is used up. Otherwise the card is made, or the
    /// card being edited changed, the board is reloaded, the form emptied and the board
    /// brought up. Where the service or the reload fails, the error is returned and the
    /// interface is as before, the form with what was typed included.
    pub fn submit_card(&mut self) -> (result: Result<(), AppError>)
        ensures
            old(self)@.view is CardForm && old(self)@.form.title.len() == 0 ==> result is Ok
                && final(self)@ == old(self)@.with_error(title_required_text()),
            match old(self)@.submit_request() {
                None => result is Ok && final(self)@ == old(self)@.submit_refused(),
                Some(request) => match result {
                    Ok(()) => old(self)@.submitted_to(final(self)@),
                    Err(error) => final(self)@ == old(self)@ && request.explains(error),
                },
            },
            final(self).same_project(*old(self)),
    {
        let request = match self.prepare_submit() {
            Some(request) => request,
            None => {
                return Ok(());
            },
        };
        match self.perform(request) {
            Ok(_) => {},
            Err(error) => {
                return Err(AppError::Card(error));
            },
        }
        match self.reload() {
            Ok(loaded) => {
                self.finish_submit(loaded);
                Ok(())
            },
            Err(error) => Err(AppError::Board(error)),
        }
    }

    /// Confirms the move: the card goes to the column at the target, the board is reloaded,
    /// and the card's details come up. Where no move dialogue is up, the target is no column
    /// of the board, or the service or the reload fails, the error is returned and the
    /// interface is as before.
    pub fn confirm_move_card(&mut self) -> (result: Result<(), AppError>)
        ensures
            match old(self)@.move_request() {
                Err(AppError::NoCardSelected) => result matches Err(AppError::NoCardSelected)
                    && final(self)@ == old(self)@,
                Err(_) => result matches Err(AppError::InvalidTargetColumn) && final(self)@
                    == old(self)@,
                Ok(request) => match result {
                    Ok(()) => old(self)@.moved_to(final(self)@),
                    Err(error) => final(self)@ == old(self)@ && request.explains(error),
                },
            },
            final(self).same_project(*old(self)),
    {
        let request = match self.move_request() {
            Ok(request) => request,
            Err(error) => {
                return Err(error);
            },
        };
        match self.perform(request) {
            Ok(_) => {},
            Err(error) => {
                return Err(AppError::Card(error));
            },
        }
        match self.reload() {
            Ok(loaded) => {
                self.finish_move(loaded);
                Ok(())
            },
            Err(error) => Err(AppError::Board(error)),
        }
    }

    /// Moves the selected card to the neighbouring column on `side`, reloads the board, and
    /// lets the focus follow the card, which stays selected. Does nothing where no card is
    /// selected or the board ends on that side. Where the service or the reload fails, the
    /// error is returned and the interface is as before.
    pub fn quick_move_card(&mut self, side: Side) -> (result: Result<(), AppError>)
        ensures
            match old(self)@.quick_move_request(side) {
                None => result is Ok && final(self)@ == old(self)@,
                Some(request) => match result {
                    Ok(()) => old(self)@.quick_moved_to(side, final(self)@),
                    Err(error) => final(self)@ == old(self)@ && request.explains(error),
                },
            },
            final(self).same_project(*old(self)),
    {
        let request = match self.quick_move_request(side) {
            Some(request) => request,
            None => {
                return Ok(());
            },
        };
        match self.perform(request) {
            Ok(_) => {},
            Err(error) => {
                return Err(AppError::Card(error));
            },
        }
        match self.reload() {
            Ok(loaded) => {
                self.finish_quick_move(side, loaded);
                Ok(())
            },
            Err(error) => Err(AppError::Board(error)),
        }
    }

    /// Moves the selected card one column to the left; see [`App::quick_move_card`].
    pub fn quick_move_card_left(&mut self) -> (result: Result<(), AppError>)
        ensures
            match old(self)@.quick_move_request(Side::Left) {
                None => result is Ok && final(self)@ == old(self)@,
                Some(request) => match result {
                    Ok(()) => old(self)@.quick_moved_to(Side::Left, final(self)@),
                    Err(error) => final(self)@ == old(self)@ && request.explains(error),
                },
            },
            final(self).same_project(*old(self)),
    {
        self.quick_move_card(Side::Left)
    }

    /// Moves the selected card one column to the right; see [`App::quick_move_card`].
    pub fn quick_move_card_right(&mut self) -> (result: Result<(), AppError>)
        ensures
            match old(self)@.quick_move_request(Side::Right) {
                None => result is Ok && final(self)@ == old(self)@,
                Some(request) => match result {
                    Ok(()) => old(self)@.quick_moved_to(Side::Right, final(self)@),
                    Err(error) => final(self)@ == old(self)@ && request.explains(error),
                },
            },
            final(self).same_project(*old(self)),
    {
        self.quick_move_card(Side::Right)
    }

    /// Confirms the deletion: the card is deleted, the board reloaded, and the board brought
    /// up with nothing selected. A reload that fails is passed over: the board comes up as
    /// it was last loaded. Does nothing where no deletion is in question. Where the service
    /// fails, the error is returned and the interface is as before.
    pub fn confirm_delete_card(&mut self) -> (result: Result<(), AppError>)
        ensures
            match old(self)@.delete_request() {
                None => result is Ok && final(self)@ == old(self)@,
                Some(request) => match result {
                    Ok(()) => old(self)@.deleted_to(final(self)@),
                    Err(error) => final(self)@ == old(self)@ && error is Card
                        && request.explains(error),
                },
            },
            final(self).same_project(*old(self)),
    {
        let request = match self.delete_request() {
            Some(request) => request,
            None => {
                return Ok(());
            },
        };
        match self.perform(request) {
            Ok(_) => {},
            Err(error) => {
                return Err(AppError::Card(error));
            },
        }
        match self.reload() {
            Ok(loaded) => {
                self.board_reloaded(loaded);
            },
            Err(_) => {},
        }
        self.finish_delete();
        Ok(())
    }

    /// Shows `error` as the error of the interface: its message behind `prefix`.
    pub fn show_failure(&mut self, prefix: &str, error: &AppError)
        ensures
            final(self)@ == old(self)@.with_error(prefix@ + error.message_text()),
            old(self)@.failed_with(prefix@, final(self)@),
            final(self).same_project(*old(self)),
    {
        let detail = error.message();
        let mut text = String::from_str(prefix);
        text.append(detail.as_str());
        self.error_message = Some(text);
        assert(self@ == old(self)@.with_error(prefix@ + detail@));
    }
}

} // verus!
