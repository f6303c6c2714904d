//! Boards as a whole: making one for a project, loading and saving it, and putting the cards
//! of a column in another order.

use crate::domain::board::Board;
use crate::domain::board::BoardModel;
use crate::domain::card_id::card_id_text;
use crate::domain::column::lemma_reorder_keeps_cards;
use crate::domain::consistency::lemma_fresh_is_wf;
use crate::infrastructure::storage::ancestor_bytes;
use crate::infrastructure::storage::file_name_of;
use crate::infrastructure::storage::file_name_text;
use crate::infrastructure::storage::path_buf_bytes;
use crate::infrastructure::storage::path_bytes;
use crate::infrastructure::storage::BoardRepository;
use crate::infrastructure::storage::BoardStorage;
use crate::infrastructure::storage::StorageError;
use crate::text::alphanumeric;
use crate::text::is_alphanumeric;
use crate::text::lowercase;
use crate::text::push_char;
use crate::text::to_lowercase;
use std::path::Path;
use std::path::PathBuf;
use vstd::prelude::*;

verus! {

/// The name of a board that is given none: the name of the project's directory, or "board"
/// where the path names none.
pub open spec fn default_board_name(base_path: Seq<u8>) -> Seq<char> {
    match file_name_of(base_path) {
        Some(name) => name,
        None => "board"@,
    }
}

/// Which way a card moves within its column.
#[derive(Debug, Clone, Copy, PartialEq, Eq)]
pub enum MoveDirection {
    /// Towards the top of the column.
    Up,
    /// Towards the bottom of the column.
    Down,
}

/// What can go wrong with a board as a whole.
#[derive(Debug)]
pub enum BoardServiceError {
    /// The store failed.
    Storage(StorageError),
    /// The project has a board already.
    AlreadyInitialized,
    /// The project has no board.
    BoardNotFound,
    /// The name cannot be a board's name.
    InvalidName(String),
    /// The board has no card of this identifier, or the column that the card names does not
    /// exist.
    CardNotFound(String),
    /// The card of this identifier cannot move further: it stands at the edge of its column.
    /// Nothing has failed; there is nothing to do.
    EdgeOfColumn(String),
}

impl BoardServiceError {
    /// The message of this error.
    pub open spec fn message_text(self) -> Seq<char> {
        match self {
            BoardServiceError::Storage(error) => "Storage error: "@ + error.message_text(),
            BoardServiceError::AlreadyInitialized => "Board already initialized in this directory"@,
            BoardServiceError::BoardNotFound => "No board found. Run 'clicky init' to create one."@,
            BoardServiceError::InvalidName(name) => "Invalid board name: "@ + name@,
            BoardServiceError::CardNotFound(card_id) => "Card not found: "@ + card_id@,
            BoardServiceError::EdgeOfColumn(card_id) => "Card is already at the edge of its column: "@
                + card_id@,
        }
    }

    /// The message of the error, for the user.
    pub fn message(&self) -> (text: String)
        ensures
            text@ == self.message_text(),
    {
        match self {
            BoardServiceError::Storage(error) => {
                let detail = error.message();
                let mut text = String::from_str("Storage error: ");
                text.append(detail.as_str());
                assert(text@ == "Storage error: "@ + detail@);
                text
            },
            BoardServiceError::AlreadyInitialized => String::from_str(
                "Board already initialized in this directory",
            ),
            BoardServiceError::BoardNotFound => String::from_str(
                "No board found. Run 'clicky init' to create one.",
            ),
            BoardServiceError::InvalidName(name) => {
                let mut text = String::from_str("Invalid board name: ");
                text.append(name.as_str());
                text
            },
            BoardServiceError::CardNotFound(card_id) => {
                let mut text = String::from_str("Card not found: ");
                text.append(card_id.as_str());
                text
            },
            BoardServiceError::EdgeOfColumn(card_id) => {
                let mut text = String::from_str("Card is already at the edge of its column: ");
                text.append(card_id.as_str());
                text
            },
        }
    }
}

/// A space or an underscore becomes a hyphen; any other character stays.
pub open spec fn dashed(c: char) -> char {
    if c == ' ' || c == '_' {
        '-'
    } else {
        c
    }
}

/// The characters that a board identifier keeps: letters, digits and the hyphen.
pub open spec fn kept(c: char) -> bool {
    alphanumeric(c) || c == '-'
}

/// The text with its spaces and underscores made hyphens.
pub open spec fn with_dashes(text: Seq<char>) -> Seq<char> {
    text.map_values(|c: char| dashed(c))
}

/// The letters, digits and hyphens of a text.
pub open spec fn only_kept(text: Seq<char>) -> Seq<char> {
    text.filter(|c: char| kept(c))
}

/// The identifier of a board called `name`: the name in lower case, spaces and underscores
/// made hyphens, and everything dropped that is then neither letter, digit nor hyphen.
pub open spec fn sanitized_id(name: Seq<char>) -> Seq<char> {
    only_kept(with_dashes(lowercase(name)))
}

/// The kept characters of a text with one more character at its end.
proof fn lemma_sanitize_step(text: Seq<char>, c: char)
    ensures
        only_kept(with_dashes(text.push(c))) == if kept(dashed(c)) {
            only_kept(with_dashes(text)).push(dashed(c))
        } else {
            only_kept(with_dashes(text))
        },
{
    assert(with_dashes(text.push(c)) =~= with_dashes(text).push(dashed(c)));
    with_dashes(text).lemma_filter_push(dashed(c), |c: char| kept(c));
}

/// The identifier of a board holds letters, digits and hyphens only, whatever the name.
pub proof fn lemma_sanitized_id_is_plain(name: Seq<char>)
    ensures
        forall|i: int| 0 <= i < sanitized_id(name).len() ==> kept(#[trigger] sanitized_id(name)[i]),
{
    with_dashes(lowercase(name)).filter_lemma(|c: char| kept(c));
}

/// What the reordering of a card comes to, on a board in memory.
pub open spec fn reorder_outcome(
    before: BoardModel,
    card_id: Seq<char>,
    direction: MoveDirection,
) -> Result<BoardModel, ReorderFailure> {
    match before.card_index(card_id) {
        None => Err(ReorderFailure::NoCard),
        Some(i) => match before.column_index(before.cards[i].column_id) {
            None => Err(ReorderFailure::NoCard),
            Some(k) => {
                let column = before.columns[k];
                let able = match direction {
                    MoveDirection::Up => column.can_move_up(card_id),
                    MoveDirection::Down => column.can_move_down(card_id),
                };
                if able {
                    Ok(
                        BoardModel {
                            columns: before.columns.update(
                                k,
                                match direction {
                                    MoveDirection::Up => column.move_card_up(card_id),
                                    MoveDirection::Down => column.move_card_down(card_id),
                                },
                            ),
                            ..before
                        },
                    )
                } else {
                    Err(ReorderFailure::AtEdge)
                }
            },
        },
    }
}

/// Why a card was not reordered.
pub enum ReorderFailure {
    /// The board has no such card, or not the column that the card names.
    NoCard,
    /// The card is first or last in its column already, or the column does not list it.
    AtEdge,
}

/// Moves a card one place up or down within its own column, on a board in memory. The card's
/// column is the one that its `column_id` names. Nothing but the order of that column's list
/// changes, no stamp either; where the card cannot move, nothing changes at all.
pub fn reorder_card(board: &mut Board, card_id: &str, direction: MoveDirection) -> (result: Result<
    (),
    BoardServiceError,
>)
    ensures
        old(board)@.wf() ==> final(board)@.wf(),
        match reorder_outcome(old(board)@, card_id@, direction) {
            Ok(after) => result is Ok && final(board)@ == after,
            Err(ReorderFailure::NoCard) => {
                &&& final(board)@ == old(board)@
                &&& result matches Err(BoardServiceError::CardNotFound(id))
                &&& id@ == card_id@
            },
            Err(ReorderFailure::AtEdge) => {
                &&& final(board)@ == old(board)@
                &&& result matches Err(BoardServiceError::EdgeOfColumn(id))
                &&& id@ == card_id@
            },
        },
{
    let index = match board.find_card(card_id) {
        Some(index) => index,
        None => {
            return Err(BoardServiceError::CardNotFound(String::from_str(card_id)));
        },
    };
    let column = match board.find_column(board.cards[index].column_id.as_str()) {
        Some(column) => column,
        None => {
            return Err(BoardServiceError::CardNotFound(String::from_str(card_id)));
        },
    };
    let moved = match direction {
        MoveDirection::Up => board.columns[column].move_card_up(card_id),
        MoveDirection::Down => board.columns[column].move_card_down(card_id),
    };
    if moved {
        assert(board@.columns =~= old(board)@.columns.update(
            column as int,
            match direction {
                MoveDirection::Up => old(board)@.columns[column as int].move_card_up(card_id@),
                MoveDirection::Down => old(board)@.columns[column as int].move_card_down(card_id@),
            },
        ));
        assert(board@.cards =~= old(board)@.cards);
        proof {
            if old(board)@.wf() {
                lemma_reorder_keeps_wf(old(board)@, card_id@, direction);
            }
        }
        Ok(())
    } else {
        assert(board@.columns =~= old(board)@.columns);
        assert(board@.cards =~= old(board)@.cards);
        Err(BoardServiceError::EdgeOfColumn(String::from_str(card_id)))
    }
}

/// The boards of projects, in a store.
pub struct BoardService<R: BoardRepository> {
    repository: R,
}

impl<R: BoardRepository> BoardService<R> {
    /// The store that the service keeps its boards in.
    pub closed spec fn store(self) -> R {
        self.repository
    }

    /// A service on the boards that `repository` keeps.
    pub fn new(repository: R) -> (service: Self)
        ensures
            service.store() == repository,
    {
        BoardService { repository }
    }

    /// Makes the board of the project at `base_path` and saves it. The board is called `name`
    /// or, where none is given, as the project's directory is (or "board", where the path
    /// names none); its identifier is the name, sanitized.
    ///
    /// Fails with `AlreadyInitialized` where the store has a board for the project, and with
    /// `Storage` where the new board could not be saved; with nothing else.
    pub fn initialize(&self, base_path: &Path, name: Option<String>) -> (result: Result<
        Board,
        BoardServiceError,
    >)
        ensures
            match result {
                Ok(board) => {
                    &&& board@ == BoardModel::fresh(
                        sanitized_id(board@.name),
                        board@.name,
                        board.created_at,
                    )
                    &&& board@.wf()
                    &&& board@.name == match name {
                        Some(given) => given@,
                        None => default_board_name(path_bytes(base_path)),
                    }
                },
                Err(error) => error is AlreadyInitialized || error is Storage,
            },
    {
        let board_path = BoardStorage::board_path(base_path);
        if self.repository.board_exists(board_path.as_path()) {
            return Err(BoardServiceError::AlreadyInitialized);
        }
        let board_name = match name {
            Some(given) => given,
            None => match file_name_text(base_path) {
                Some(directory) => directory,
                None => String::from_str("board"),
            },
        };
        let board_id = Self::sanitize_id(board_name.as_str());
        let board = Board::new(board_id, board_name);
        proof {
            lemma_fresh_is_wf(board@.id, board@.name, board.created_at);
        }
        match self.repository.save(&board, board_path.as_path()) {
            Ok(()) => Ok(board),
            Err(error) => Err(BoardServiceError::Storage(error)),
        }
    }

    /// Loads the board of the project at `base_path`. Fails with `BoardNotFound` where the
    /// store has none, and with `Storage` where it could not be read; with nothing else.
    pub fn load(&self, base_path: &Path) -> (result: Result<Board, BoardServiceError>)
        ensures
            result matches Err(error) ==> error is BoardNotFound || error is Storage,
    {
        let board_path = BoardStorage::board_path(base_path);
        if !self.repository.board_exists(board_path.as_path()) {
            return Err(BoardServiceError::BoardNotFound);
        }
        match self.repository.load(board_path.as_path()) {
            Ok(board) => Ok(board),
            Err(error) => Err(BoardServiceError::Storage(error)),
        }
    }

    /// Looks for a board from `start_path` upwards and loads the first one found. Returns the
    /// board with the directory of its project. Fails with `BoardNotFound` where no directory
    /// on the way up has one, and with `Storage` where the board could not be read.
    pub fn find_and_load(&self, start_path: &Path) -> (result: Result<
        (Board, PathBuf),
        BoardServiceError,
    >)
        ensures
            match result {
                Ok((_, base_path)) => ancestor_bytes(path_bytes(start_path)).contains(
                    path_buf_bytes(base_path),
                ),
                Err(error) => error is BoardNotFound || error is Storage,
            },
    {
        match BoardStorage::find_board(&self.repository, start_path) {
            Some((base_path, board_path)) => {
                match self.repository.load(board_path.as_path()) {
                    Ok(board) => Ok((board, base_path)),
                    Err(error) => Err(BoardServiceError::Storage(error)),
                }
            },
            None => Err(BoardServiceError::BoardNotFound),
        }
    }

    /// Saves `board` as the board of the project at `base_path`. Fails with `Storage` where
    /// the store does; with nothing else.
    pub fn save(&self, board: &Board, base_path: &Path) -> (result: Result<(), BoardServiceError>)
        ensures
            result matches Err(error) ==> error is Storage,
    {
        let board_path = BoardStorage::board_path(base_path);
        match self.repository.save(board, board_path.as_path()) {
            Ok(()) => Ok(()),
            Err(error) => Err(BoardServiceError::Storage(error)),
        }
    }

    /// Removes the board of the project at `base_path` from the store. Fails with `Storage`
    /// where the store does; with nothing else.
    pub fn delete(&self, base_path: &Path) -> (result: Result<(), BoardServiceError>)
        ensures
            result matches Err(error) ==> error is Storage,
    {
        let board_path = BoardStorage::board_path(base_path);
        match self.repository.delete(board_path.as_path()) {
            Ok(()) => Ok(()),
            Err(error) => Err(BoardServiceError::Storage(error)),
        }
    }

    /// Whether the store has a board for the project at `base_path`.
    pub fn board_exists(&self, base_path: &Path) -> bool {
        let board_path = BoardStorage::board_path(base_path);
        self.repository.board_exists(board_path.as_path())
    }

    /// Moves a card one place up or down within its column: loads the board, reorders the
    /// card as [`reorder_card`] does, and saves the board.
    ///
    /// Fails with `BoardNotFound` or `Storage` where the board could not be loaded or saved,
    /// with `CardNotFound` where the board has no such card, and with `EdgeOfColumn` where the
    /// card cannot move further; in the last two cases nothing is saved.
    pub fn reorder_card_in_column(
        &self,
        base_path: &Path,
        card_id: &str,
        direction: MoveDirection,
    ) -> (result: Result<(), BoardServiceError>)
        ensures
            match result {
                Ok(()) => true,
                Err(BoardServiceError::CardNotFound(id)) => id@ == card_id@,
                Err(BoardServiceError::EdgeOfColumn(id)) => id@ == card_id@,
                Err(error) => error is BoardNotFound || error is Storage,
            },
    {
        let mut board = match self.load(base_path) {
            Ok(board) => board,
            Err(error) => {
                return Err(error);
            },
        };
        match reorder_card(&mut board, card_id, direction) {
            Ok(()) => {},
            Err(error) => {
                return Err(error);
            },
        }
        self.save(&board, base_path)
    }

    /// The identifier of a board called `name`: lower case, spaces and underscores made
    /// hyphens, anything but letters, digits and hyphens dropped.
    pub fn sanitize_id(name: &str) -> (id: String)
        ensures
            id@ == sanitized_id(name@),
    {
        let lower = to_lowercase(name);
        let mut id = String::new();
        assert(only_kept(with_dashes(lower@.take(0))) =~= Seq::empty()) by {
            reveal(Seq::filter);
            assert(with_dashes(lower@.take(0)) =~= Seq::empty());
        }
        for c in it: lower.as_str().chars()
            invariant
                it.seq() == lower@,
                id@ == only_kept(with_dashes(lower@.take(it.index() as int))),
        {
            proof {
                let i = it.index() as int;
                assert(lower@.take(i + 1) =~= lower@.take(i).push(c));
                lemma_sanitize_step(lower@.take(i), c);
            }
            let d = if c == ' ' || c == '_' {
                '-'
            } else {
                c
            };
            if is_alphanumeric(d) || d == '-' {
                push_char(&mut id, d);
            }
        }
        assert(lower@.take(lower@.len() as int) =~= lower@);
        id
    }
}

/// Reordering a card keeps a consistent board consistent: the column lists the same cards as
/// before, each once, in another order, and nothing else changes.
pub proof fn lemma_reorder_keeps_wf(before: BoardModel, card_id: Seq<char>, direction: MoveDirection)
    requires
        before.wf(),
        reorder_outcome(before, card_id, direction) is Ok,
    ensures
        reorder_outcome(before, card_id, direction)->Ok_0.wf(),
{
    let after = reorder_outcome(before, card_id, direction)->Ok_0;
    let i = before.card_index(card_id).unwrap();
    let k = before.column_index(before.cards[i].column_id).unwrap();
    before.column_ids().index_of_first_ensures(before.cards[i].column_id);
    let old_column = before.columns[k];
    let new_column = after.columns[k];
    lemma_reorder_keeps_cards(old_column, card_id);
    assert(old_column.wf());
    assert(new_column.wf());
    old_column.cards.to_multiset_ensures();
    new_column.cards.to_multiset_ensures();
    assert(after.column_ids() =~= before.column_ids());
    assert forall|j: int| 0 <= j < after.columns.len() implies (#[trigger] after.columns[j]).wf() by {
        assert(before.columns[j].wf());
    }
    assert forall|j: int| 0 <= j < after.cards.len() implies after.has_column(
        (#[trigger] after.cards[j]).column_id,
    ) by {
        assert(before.has_column(before.cards[j].column_id));
    }
    assert forall|j: int, y: Seq<char>| 0 <= j < after.columns.len() implies (
    #[trigger] after.lists(j, y) <==> after.holds(y, after.columns[j].id)) by {
        assert(before.lists(j, y) <==> before.holds(y, before.columns[j].id));
        assert(before.holds(y, before.columns[j].id) == after.holds(y, after.columns[j].id));
        if j == k {
            assert(old_column.cards.contains(y) <==> old_column.cards.to_multiset().count(y) > 0);
            assert(new_column.cards.contains(y) <==> new_column.cards.to_multiset().count(y) > 0);
        }
    }
    assert forall|n: nat| n >= after.next_card_number implies !after.has_card(
        #[trigger] card_id_text(after.card_id_prefix, n),
    ) by {
        assert(!before.has_card(card_id_text(before.card_id_prefix, n)));
    }
}

} // verus!
