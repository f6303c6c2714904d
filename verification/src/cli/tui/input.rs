//! Keys: which transition each key leads to on each screen.

use crate::cli::tui::app::App;
use crate::cli::tui::app::AppModel;
use crate::cli::tui::app::title_required_text;
use crate::cli::tui::app::RequestModel;
use crate::cli::tui::app::Side;
use crate::cli::tui::state::FormModel;
use crate::cli::tui::state::InputMode;
use crate::cli::tui::state::Selection;
use crate::cli::tui::state::SelectionModel;
use crate::cli::tui::state::View;
use crate::cli::tui::state::ViewModel;
use crate::infrastructure::storage::BoardRepository;
use vstd::prelude::*;
use vstd::view::View as _;

verus! {

/// A key, as far as the interface tells keys apart.
#[derive(Debug, Clone, Copy, PartialEq, Eq)]
pub enum Key {
    /// A character key.
    Char(char),
    Enter,
    Esc,
    Backspace,
    Left,
    Right,
    Up,
    Down,
    /// Any other key.
    Other,
}

/// What the interface is woken by: a key, or the tick of the clock that lets it redraw.
#[derive(Debug, Clone, Copy, PartialEq, Eq)]
pub enum Event {
    /// A key was pressed.
    Input(Key),
    /// Time has passed.
    Tick,
}

/// What the keys are for.
#[derive(Debug, Clone, Copy, PartialEq, Eq)]
pub enum Command {
    /// Left arrow or `h`.
    Left,
    /// Right arrow or `l`.
    Right,
    /// Up arrow or `k`.
    Up,
    /// Down arrow or `j`.
    Down,
    /// Enter.
    Confirm,
    /// Escape.
    Cancel,
    /// Backspace.
    Erase,
    /// `?`.
    Help,
    /// Any other character.
    Letter(char),
    /// Any other key.
    Ignored,
}

/// The command that a key stands for where keys are commands.
pub open spec fn command_of(key: Key) -> Command {
    match key {
        Key::Left => Command::Left,
        Key::Right => Command::Right,
        Key::Up => Command::Up,
        Key::Down => Command::Down,
        Key::Enter => Command::Confirm,
        Key::Esc => Command::Cancel,
        Key::Backspace => Command::Erase,
        Key::Other => Command::Ignored,
        Key::Char(c) => if c == 'h' {
            Command::Left
        } else if c == 'l' {
            Command::Right
        } else if c == 'k' {
            Command::Up
        } else if c == 'j' {
            Command::Down
        } else if c == '?' {
            Command::Help
        } else {
            Command::Letter(c)
        },
    }
}

/// The command that a key stands for where keys are commands.
pub fn command(key: Key) -> (command: Command)
    ensures
        command == command_of(key),
{
    match key {
        Key::Left => Command::Left,
        Key::Right => Command::Right,
        Key::Up => Command::Up,
        Key::Down => Command::Down,
        Key::Enter => Command::Confirm,
        Key::Esc => Command::Cancel,
        Key::Backspace => Command::Erase,
        Key::Other => Command::Ignored,
        Key::Char(c) => if c == 'h' {
            Command::Left
        } else if c == 'l' {
            Command::Right
        } else if c == 'k' {
            Command::Up
        } else if c == 'j' {
            Command::Down
        } else if c == '?' {
            Command::Help
        } else {
            Command::Letter(c)
        },
    }
}

/// The message that goes before the reason when a card could not be moved.
pub open spec fn move_failed_text() -> Seq<char> {
    "Failed to move card: "@
}

/// The message that goes before the reason when a card could not be saved.
pub open spec fn save_failed_text() -> Seq<char> {
    "Failed to save card: "@
}

/// The message that goes before the reason when a card could not be deleted.
pub open spec fn delete_failed_text() -> Seq<char> {
    "Failed to delete: "@
}

impl AppModel {
    /// Whether `after` can follow this state on a quick move to `side`, a failure shown as
    /// an error.
    pub open spec fn after_quick_move(self, side: Side, after: AppModel) -> bool {
        match self.quick_move_request(side) {
            None => after == self,
            Some(_) => self.quick_moved_to(side, after) || self.failed_with(
                move_failed_text(),
                after,
            ),
        }
    }

    /// Whether `after` can follow this state when the form is submitted, a failure shown as
    /// an error.
    pub open spec fn after_submit(self, after: AppModel) -> bool {
        match self.submit_request() {
            None => after == self.submit_refused(),
            Some(_) => self.submitted_to(after) || self.failed_with(save_failed_text(), after),
        }
    }

    /// Whether `after` can follow this state when the move is confirmed, a failure shown as
    /// an error.
    pub open spec fn after_confirm_move(self, after: AppModel) -> bool {
        match self.move_request() {
            Ok(_) => self.moved_to(after) || self.failed_with(move_failed_text(), after),
            Err(_) => self.failed_with(move_failed_text(), after),
        }
    }

    /// Whether `after` can follow this state when the deletion is confirmed, a failure shown
    /// as an error.
    pub open spec fn after_confirm_delete(self, after: AppModel) -> bool {
        match self.delete_request() {
            None => after == self,
            Some(_) => self.deleted_to(after) || self.failed_with(delete_failed_text(), after),
        }
    }

    /// Whether `after` can follow this state on a key while the board is up.
    pub open spec fn after_board_key(self, key: Key, after: AppModel) -> bool {
        match command_of(key) {
            Command::Left => if self.view.is_card_selected() {
                self.after_quick_move(Side::Left, after)
            } else {
                after == self.move_left()
            },
            Command::Right => if self.view.is_card_selected() {
                self.after_quick_move(Side::Right, after)
            } else {
                after == self.move_right()
            },
            Command::Up => after == self.move_up(),
            Command::Down => after == self.move_down(),
            Command::Confirm => if self.view matches ViewModel::Board {
                selection: SelectionModel::Nothing,
                ..
            } {
                after == self.enter_cards()
            } else {
                after == self.enter_card_detail()
            },
            Command::Cancel => after == self.exit_cards(),
            Command::Help => after == self.toggle_help(),
            Command::Letter(c) => if c == 'c' {
                after == self.start_create_card()
            } else if c == 'd' {
                after == self.open_card_detail()
            } else if c == 'm' {
                if self.current_card_index() is Some && !self.view.is_card_selected() {
                    after == self.start_move_card()
                } else {
                    after == self
                }
            } else {
                after == self
            },
            _ => after == self,
        }
    }

    /// The state after a key on the detail screen.
    pub open spec fn on_detail_key(self, key: Key) -> AppModel {
        match command_of(key) {
            Command::Cancel => self.exit_card_detail(),
            Command::Help => self.toggle_help(),
            Command::Letter(c) => if c == 'e' {
                self.start_edit_card()
            } else if c == 'd' {
                self.start_delete_card()
            } else if c == 'm' {
                self.start_move_card()
            } else if c == 'q' {
                self.exit_card_detail()
            } else {
                self
            },
            _ => self,
        }
    }

    /// The state after a key that is typed into the form: a character is added to the field
    /// in focus, backspace takes one away, enter goes on to the next field and escape stays
    /// in it, both ending the typing.
    pub open spec fn on_editing_key(self, key: Key) -> AppModel {
        match key {
            Key::Char(c) => self.type_char(c),
            Key::Backspace => self.erase_char(),
            Key::Enter => self.next_form_field().with_input_mode(InputMode::Normal),
            Key::Esc => self.with_input_mode(InputMode::Normal),
            _ => self,
        }
    }

    /// Whether `after` can follow this state on a key while the form is up. While a field
    /// is being edited every key goes to the field; otherwise keys move between the fields,
    /// submit or cancel, and any other character starts the editing and is kept.
    pub open spec fn after_form_key(self, key: Key, after: AppModel) -> bool {
        if self.form.input_mode == InputMode::Editing {
            after == self.on_editing_key(key)
        } else {
            match command_of(key) {
                Command::Up => after == self.prev_form_field(),
                Command::Down => after == self.next_form_field(),
                Command::Confirm => self.after_submit(after),
                Command::Cancel => after == self.cancel_card(),
                Command::Help => after == self.toggle_help(),
                Command::Left => match key {
                    Key::Char(c) => after == self.type_char(c),
                    _ => after == self,
                },
                Command::Right => match key {
                    Key::Char(c) => after == self.type_char(c),
                    _ => after == self,
                },
                Command::Letter(c) => after == self.type_char(c),
                _ => after == self,
            }
        }
    }

    /// Whether `after` can follow this state on a key while the deletion is in question:
    /// `y` deletes, `n` and escape do not.
    pub open spec fn after_delete_key(self, key: Key, after: AppModel) -> bool {
        match command_of(key) {
            Command::Cancel => after == self.cancel_delete_card(),
            Command::Help => after == self.toggle_help(),
            Command::Letter(c) => if c == 'y' {
                self.after_confirm_delete(after)
            } else if c == 'n' {
                after == self.cancel_delete_card()
            } else {
                after == self
            },
            _ => after == self,
        }
    }

    /// Whether `after` can follow this state on a key while the move dialogue is up.
    pub open spec fn after_move_key(self, key: Key, after: AppModel) -> bool {
        match command_of(key) {
            Command::Left => after == self.move_card_left(),
            Command::Right => after == self.move_card_right(),
            Command::Confirm => self.after_confirm_move(after),
            Command::Cancel => after == self.cancel_move_card(),
            Command::Help => after == self.toggle_help(),
            _ => after == self,
        }
    }

    /// The state after a key while help is up: escape and `?` close it.
    pub open spec fn on_help_key(self, key: Key) -> AppModel {
        match command_of(key) {
            Command::Cancel => self.toggle_help(),
            Command::Help => self.toggle_help(),
            _ => self,
        }
    }

    /// Whether `after` can follow this state on a key: the key goes to the screen that is
    /// up.
    pub open spec fn after_key(self, key: Key, after: AppModel) -> bool {
        match self.view {
            ViewModel::Board { .. } => self.after_board_key(key, after),
            ViewModel::CardDetail { .. } => after == self.on_detail_key(key),
            ViewModel::CardForm { .. } => self.after_form_key(key, after),
            ViewModel::MoveCard { .. } => self.after_move_key(key, after),
            ViewModel::ConfirmDelete { .. } => self.after_delete_key(key, after),
            ViewModel::Help { .. } => after == self.on_help_key(key),
        }
    }
}

/// Handles a key while the board is up.
pub fn handle_board_input<R: BoardRepository>(app: &mut App<R>, key: Key)
    ensures
        old(app)@.after_board_key(key, final(app)@),
        final(app).same_project(*old(app)),
{
    match command(key) {
        Command::Left => {
            if app.view.is_card_selected() {
                quick_move(app, Side::Left);
            } else {
                app.move_left();
            }
        },
        Command::Right => {
            if app.view.is_card_selected() {
                quick_move(app, Side::Right);
            } else {
                app.move_right();
            }
        },
        Command::Up => app.move_up(),
        Command::Down => app.move_down(),
        Command::Confirm => {
            let browsing = match &app.view {
                View::Board { selection: Selection::Nothing, .. } => true,
                _ => false,
            };
            if browsing {
                app.enter_cards();
            } else {
                app.enter_card_detail();
            }
        },
        Command::Cancel => {
            if app.view.is_card_selected() {
                app.deselect_card();
            } else {
                app.exit_cards();
            }
        },
        Command::Help => app.toggle_help(),
        Command::Letter(c) => {
            if c == 'c' {
                app.start_create_card();
            } else if c == 'd' {
                app.open_card_detail();
            } else if c == 'm' {
                if app.get_selected_card_index().is_some() && !app.view.is_card_selected() {
                    app.start_move_card();
                }
            }
        },
        _ => {},
    }
}

/// A quick move, a failure shown as an error.
fn quick_move<R: BoardRepository>(app: &mut App<R>, side: Side)
    ensures
        old(app)@.after_quick_move(side, final(app)@),
        final(app).same_project(*old(app)),
{
    match app.quick_move_card(side) {
        Ok(()) => {},
        Err(error) => {
            app.show_failure("Failed to move card: ", &error);
        },
    }
}

/// Handles a key on the detail screen.
pub fn handle_card_detail_input<R: BoardRepository>(app: &mut App<R>, key: Key)
    ensures
        final(app)@ == old(app)@.on_detail_key(key),
        final(app).same_project(*old(app)),
{
    match command(key) {
        Command::Cancel => app.exit_card_detail(),
        Command::Help => app.toggle_help(),
        Command::Letter(c) => {
            if c == 'e' {
                app.start_edit_card();
            } else if c == 'd' {
                app.start_delete_card();
            } else if c == 'm' {
                app.start_move_card();
            } else if c == 'q' {
                app.exit_card_detail();
            }
        },
        _ => {},
    }
}

/// Handles a key while the card form is up, for a new card or for an edit.
pub fn handle_create_card_input<R: BoardRepository>(app: &mut App<R>, key: Key)
    ensures
        old(app)@.after_form_key(key, final(app)@),
        final(app).same_project(*old(app)),
{
    match app.form_data.input_mode {
        InputMode::Editing => {
            match key {
                Key::Char(c) => app.type_char(c),
                Key::Backspace => app.erase_char(),
                Key::Enter => {
                    app.next_form_field();
                    app.set_input_mode(InputMode::Normal);
                },
                Key::Esc => app.set_input_mode(InputMode::Normal),
                _ => {},
            }
        },
        InputMode::Normal => {
            match command(key) {
                Command::Up => app.prev_form_field(),
                Command::Down => app.next_form_field(),
                Command::Confirm => {
                    match app.submit_card() {
                        Ok(()) => {},
                        Err(error) => {
                            app.show_failure("Failed to save card: ", &error);
                        },
                    }
                },
                Command::Cancel => app.cancel_card(),
                Command::Help => app.toggle_help(),
                Command::Left => {
                    if let Key::Char(c) = key {
                        app.type_char(c);
                    }
                },
                Command::Right => {
                    if let Key::Char(c) = key {
                        app.type_char(c);
                    }
                },
                Command::Letter(c) => app.type_char(c),
                _ => {},
            }
        },
    }
}

/// Handles a key while the card form is up for an edit: as for a new card.
pub fn handle_edit_card_input<R: BoardRepository>(app: &mut App<R>, key: Key)
    ensures
        old(app)@.after_form_key(key, final(app)@),
        final(app).same_project(*old(app)),
{
    handle_create_card_input(app, key);
}

/// Handles a key while the deletion of a card is in question.
pub fn handle_confirm_delete_input<R: BoardRepository>(app: &mut App<R>, key: Key)
    ensures
        old(app)@.after_delete_key(key, final(app)@),
        final(app).same_project(*old(app)),
{
    match command(key) {
        Command::Cancel => app.cancel_delete_card(),
        Command::Help => app.toggle_help(),
        Command::Letter(c) => {
            if c == 'y' {
                match app.confirm_delete_card() {
                    Ok(()) => {},
                    Err(error) => {
                        app.show_failure("Failed to delete: ", &error);
                    },
                }
            } else if c == 'n' {
                app.cancel_delete_card();
            }
        },
        _ => {},
    }
}

/// Handles a key while the move dialogue is up.
pub fn handle_move_card_input<R: BoardRepository>(app: &mut App<R>, key: Key)
    ensures
        old(app)@.after_move_key(key, final(app)@),
        final(app).same_project(*old(app)),
{
    match command(key) {
        Command::Left => app.move_card_left(),
        Command::Right => app.move_card_right(),
        Command::Confirm => {
            match app.confirm_move_card() {
                Ok(()) => {},
                Err(error) => {
                    app.show_failure("Failed to move card: ", &error);
                },
            }
        },
        Command::Cancel => app.cancel_move_card(),
        Command::Help => app.toggle_help(),
        _ => {},
    }
}

/// Handles a key: hands it to the screen that is up. Returns whether the interface is to
/// quit: that is so when the key is `q` and the board is up once the key is handled.
pub fn handle_key<R: BoardRepository>(app: &mut App<R>, key: Key) -> (quit: bool)
    ensures
        old(app)@.after_key(key, final(app)@),
        quit == (key == Key::Char('q') && final(app)@.view is Board),
        final(app).same_project(*old(app)),
{
    let screen: u8 = match &app.view {
        View::Board { .. } => 0,
        View::CardDetail { .. } => 1,
        View::CardForm { .. } => 2,
        View::MoveCard { .. } => 3,
        View::ConfirmDelete { .. } => 4,
        View::Help { .. } => 5,
    };
    if screen == 0 {
        handle_board_input(app, key);
    } else if screen == 1 {
        handle_card_detail_input(app, key);
    } else if screen == 2 {
        handle_create_card_input(app, key);
    } else if screen == 3 {
        handle_move_card_input(app, key);
    } else if screen == 4 {
        handle_confirm_delete_input(app, key);
    } else {
        match command(key) {
            Command::Cancel => app.toggle_help(),
            Command::Help => app.toggle_help(),
            _ => {},
        }
    }
    let on_board = match &app.view {
        View::Board { .. } => true,
        _ => false,
    };
    let is_q = match key {
        Key::Char(c) => c == 'q',
        _ => false,
    };
    on_board && is_q
}

/// Handles an event: a key goes to the screen that is up, and a tick changes nothing. Returns
/// whether the interface is to quit.
pub fn handle_event<R: BoardRepository>(app: &mut App<R>, event: Event) -> (quit: bool)
    ensures
        match event {
            Event::Input(key) => old(app)@.after_key(key, final(app)@) && quit == (key
                == Key::Char('q') && final(app)@.view is Board),
            Event::Tick => final(app)@ == old(app)@ && !quit,
        },
        final(app).same_project(*old(app)),
{
    match event {
        Event::Input(key) => handle_key(app, key),
        Event::Tick => false,
    }
}

/// Whether the terminal is to show its cursor: while a field of the form is being edited.
pub fn cursor_visible<R: BoardRepository>(app: &App<R>) -> (visible: bool)
    ensures
        visible == (app@.view is CardForm && app@.form.input_mode == InputMode::Editing),
{
    let in_form = match &app.view {
        View::CardForm { .. } => true,
        _ => false,
    };
    let editing = match app.form_data.input_mode {
        InputMode::Editing => true,
        InputMode::Normal => false,
    };
    in_form && editing
}

impl ViewModel {
    /// What holds of the view whatever keys were pressed: a highlight lies in the column in
    /// focus, and help lies over a view that is not help itself.
    pub open spec fn wf(self) -> bool {
        match self {
            ViewModel::Board {
                selected_column,
                selection: SelectionModel::Highlighted { column, .. },
            } => column == selected_column,
            ViewModel::Help { previous } => match *previous {
                ViewModel::Board {
                    selected_column,
                    selection: SelectionModel::Highlighted { column, .. },
                } => column == selected_column,
                ViewModel::Help { .. } => false,
                _ => true,
            },
            _ => true,
        }
    }
}

/// No key leads out of the views that [`ViewModel::wf`] describes: a highlight never
/// outlives a change of column, and help never opens over help.
pub proof fn lemma_keys_keep_view_wf(before: AppModel, key: Key, after: AppModel)
    requires
        before.view.wf(),
        before.after_key(key, after),
    ensures
        after.view.wf(),
{
}

/// Giving up leaves the board alone: cancelling the form, the move or the deletion changes
/// neither the board that the interface holds nor, since it asks nothing of the service, the
/// stored one.
pub proof fn lemma_cancelling_keeps_board(state: AppModel)
    ensures
        state.cancel_card().board == state.board,
        state.cancel_move_card().board == state.board,
        state.cancel_delete_card().board == state.board,
        state.cancel_card().form == FormModel::empty(),
        state.view is MoveCard ==> state.cancel_move_card().view is CardDetail
            && state.cancel_move_card().view.selected_card_id() == state.view.selected_card_id(),
        state.view is ConfirmDelete ==> state.cancel_delete_card().view is CardDetail
            && state.cancel_delete_card().view.selected_card_id()
            == state.view.selected_card_id(),
{
}

/// A form without a title is not submitted: it stays up with what was typed, an error is
/// shown, nothing is asked of the service, and the board, its next card number included, is
/// as before.
pub proof fn lemma_submit_needs_title(before: AppModel, after: AppModel)
    requires
        before.view is CardForm,
        !before.form.is_valid(),
        before.after_submit(after),
    ensures
        before.submit_request() is None,
        after.view == before.view,
        after.form == before.form,
        after.board == before.board,
        after.error_message == Some(title_required_text()),
{
}

/// A quick move that goes through takes the focus one column to the side and keeps the same
/// card selected.
pub proof fn lemma_quick_move_follows_card(before: AppModel, side: Side, after: AppModel)
    requires
        before.quick_move_request(side) is Some,
        before.quick_moved_to(side, after),
    ensures
        before.view matches ViewModel::Board {
            selected_column,
            selection: SelectionModel::Selected { card_id },
        } && after.view == (ViewModel::Board {
            selected_column: match side {
                Side::Left => (selected_column - 1) as usize,
                Side::Right => (selected_column + 1) as usize,
            },
            selection: SelectionModel::Selected { card_id },
        }),
        before.quick_move_request(side) matches Some(RequestModel::Move { card_id, column_id })
            && Some(card_id) == before.view.selected_card_id() && column_id
            == before.board.unwrap().columns[after.view.selected_column() as int].id,
{
}

} // verus!
