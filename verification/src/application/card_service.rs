//! Cards, one at a time: making, moving, changing and deleting a card of a stored board.
//!
//! Each use case has two parts. The functions [`add_card`], [`relocate_card`],
//! [`revise_card`], [`discard_card`] and [`require_card`] work on a board in memory and say
//! exactly what they do to it. The methods of [`CardService`] load the board, apply one of
//! them, and save the board if it went well.

use crate::application::board_service::BoardService;
use crate::application::board_service::BoardServiceError;
use crate::clock::Timestamp;
use crate::domain::board::Board;
use crate::domain::card::Card;
use crate::text::same_text;
use crate::domain::board::BoardModel;
use crate::domain::card::CardModel;
use crate::domain::card_id::card_id_text;
use crate::domain::consistency::lemma_create_card_keeps_wf;
use crate::domain::consistency::lemma_delete_card_keeps_wf;
use crate::domain::consistency::lemma_move_card_keeps_wf;
use crate::infrastructure::storage::BoardRepository;
use crate::infrastructure::storage::StorageError;
use crate::text::optional_text;
use std::path::Path;
use vstd::prelude::*;

verus! {

/// What can go wrong with a card.
#[derive(Debug)]
pub enum CardServiceError {
    /// The board could not be loaded or saved.
    BoardService(BoardServiceError),
    /// The store failed.
    Storage(StorageError),
    /// The board has no card of this identifier.
    CardNotFound(String),
    /// The board has no column of this identifier.
    ColumnNotFound(String),
    /// The card cannot be made or changed as asked; the text says why.
    InvalidData(String),
}

/// A card just made, and the board that now holds it.
pub struct CreatedCardInfo {
    pub card_id: String,
    pub board: Board,
}

impl CardServiceError {
    /// The message of this error.
    pub open spec fn message_text(self) -> Seq<char> {
        match self {
            CardServiceError::BoardService(error) => "Board service error: "@
                + error.message_text(),
            CardServiceError::Storage(error) => "Storage error: "@ + error.message_text(),
            CardServiceError::CardNotFound(card_id) => "Card not found: "@ + card_id@,
            CardServiceError::ColumnNotFound(column_id) => "Column not found: "@ + column_id@,
            CardServiceError::InvalidData(reason) => "Invalid card data: "@ + reason@,
        }
    }

    /// The message of the error, for the user.
    pub fn message(&self) -> (text: String)
        ensures
            text@ == self.message_text(),
    {
        match self {
            CardServiceError::BoardService(error) => {
                let detail = error.message();
                let mut text = String::from_str("Board service error: ");
                text.append(detail.as_str());
                assert(text@ == "Board service error: "@ + detail@);
                text
            },
            CardServiceError::Storage(error) => {
                let detail = error.message();
                let mut text = String::from_str("Storage error: ");
                text.append(detail.as_str());
                assert(text@ == "Storage error: "@ + detail@);
                text
            },
            CardServiceError::CardNotFound(card_id) => {
                let mut text = String::from_str("Card not found: ");
                text.append(card_id.as_str());
                text
            },
            CardServiceError::ColumnNotFound(column_id) => {
                let mut text = String::from_str("Column not found: ");
                text.append(column_id.as_str());
                text
            },
            CardServiceError::InvalidData(reason) => {
                let mut text = String::from_str("Invalid card data: ");
                text.append(reason.as_str());
                text
            },
        }
    }
}

impl CardModel {
    /// The card with the fields changed that a change is given for, stamped at `stamp` if any
    /// is. For description and assignee `Some(None)` clears the field and `None` leaves it.
    pub open spec fn revise(
        self,
        title: Option<Seq<char>>,
        description: Option<Option<Seq<char>>>,
        assignee: Option<Option<Seq<char>>>,
        stamp: Timestamp,
    ) -> CardModel {
        CardModel {
            title: match title {
                Some(text) => text,
                None => self.title,
            },
            description: match description {
                Some(change) => change,
                None => self.description,
            },
            assignee: match assignee {
                Some(change) => change,
                None => self.assignee,
            },
            updated_at: if title is Some || description is Some || assignee is Some {
                stamp
            } else {
                self.updated_at
            },
            ..self
        }
    }
}

/// The change to an optional field, in mathematical terms.
pub open spec fn optional_change(change: Option<Option<String>>) -> Option<Option<Seq<char>>> {
    match change {
        Some(value) => Some(optional_text(value)),
        None => None,
    }
}

/// The text of an optional string slice.
pub open spec fn optional_slice_text(value: Option<&str>) -> Option<Seq<char>> {
    match value {
        Some(text) => Some(text@),
        None => None,
    }
}

/// Whether a card is to be listed under a column when cards are listed by column: it says
/// that it is in the column, and it is assigned to `assignee` where one is asked for.
pub open spec fn is_listed(card: CardModel, column_id: Seq<char>, assignee: Option<Seq<char>>) -> bool {
    card.column_id == column_id && (assignee is None || card.assignee == assignee)
}

impl BoardModel {
    /// The cards to list under the column `column_id`, in the order of the board's own list:
    /// those that say that they are in it, and of those only the cards of `assignee` where
    /// one is asked for.
    pub open spec fn listed_cards(
        self,
        column_id: Seq<char>,
        assignee: Option<Seq<char>>,
    ) -> Seq<CardModel> {
        self.cards.filter(|card: CardModel| is_listed(card, column_id, assignee))
    }
}

/// Whether a column is to be listed: every column is where none is asked for, and else the
/// one that is asked for.
pub fn column_is_listed(column_id: &str, wanted: Option<&str>) -> (listed: bool)
    ensures
        listed == (wanted is None || optional_slice_text(wanted) == Some(column_id@)),
{
    match wanted {
        Some(id) => same_text(column_id, id),
        None => true,
    }
}

/// The cards of a board to list under one of its columns: the cards whose `column_id` is
/// `column_id`, and of those only the cards assigned to `assignee` where one is asked for.
/// They come in the order of the board's own list of cards.
pub fn listed_cards<'a>(board: &'a Board, column_id: &str, assignee: Option<&str>) -> (found: Vec<
    &'a Card,
>)
    ensures
        found@.map_values(|card: &Card| card@) == board@.listed_cards(
            column_id@,
            optional_slice_text(assignee),
        ),
{
    let mut found: Vec<&Card> = Vec::new();
    let ghost wanted = |card: CardModel| is_listed(card, column_id@, optional_slice_text(assignee));
    assert(found@.map_values(|card: &Card| card@) =~= Seq::empty());
    assert(board@.cards.take(0).filter(wanted) =~= Seq::empty()) by {
        reveal(Seq::filter);
    }
    let mut i: usize = 0;
    while i < board.cards.len()
        invariant
            i <= board.cards.len(),
            wanted == (|card: CardModel|
                is_listed(card, column_id@, optional_slice_text(assignee))),
            found@.map_values(|card: &Card| card@) == board@.cards.take(i as int).filter(wanted),
        decreases board.cards.len() - i,
    {
        let card = &board.cards[i];
        let ghost before = found@.map_values(|card: &Card| card@);
        proof {
            assert(board@.cards.take(i + 1) =~= board@.cards.take(i as int).push(card@));
            board@.cards.take(i as int).lemma_filter_push(card@, wanted);
        }
        let in_column = same_text(card.column_id.as_str(), column_id);
        let of_assignee = match assignee {
            Some(name) => match &card.assignee {
                Some(assigned) => same_text(assigned.as_str(), name),
                None => false,
            },
            None => true,
        };
        if in_column && of_assignee {
            found.push(card);
            assert(found@.map_values(|card: &Card| card@) =~= before.push(card@));
        }
        i += 1;
    }
    assert(board@.cards.take(board.cards.len() as int) =~= board@.cards);
    found
}

/// The change to an optional field that two settings ask for together: `clear` clears the
/// field whatever `value` is; else a value sets it, and no value leaves it as it is.
pub fn change_of(value: Option<String>, clear: bool) -> (change: Option<Option<String>>)
    ensures
        change == if clear {
            Some(None::<String>)
        } else {
            match value {
                Some(text) => Some(Some(text)),
                None => None,
            }
        },
{
    if clear {
        Some(None)
    } else {
        match value {
            Some(text) => Some(Some(text)),
            None => None,
        }
    }
}

/// Whether the board can take a new card in the column named (or in the default one): it has
/// that column, and a card number left to give.
pub open spec fn can_add_card(before: BoardModel, column_id: Option<Seq<char>>) -> bool {
    before.has_column(BoardModel::target_column(column_id)) && before.next_card_number
        < u32::MAX
}

/// `after` is `before` with a card made as asked, whatever the clock read: the card is the last
/// of `after`, and its stamps and the board's are those that `after` shows.
pub open spec fn card_added(
    before: BoardModel,
    title: Seq<char>,
    description: Option<Seq<char>>,
    assignee: Option<Seq<char>>,
    column_id: Option<Seq<char>>,
    after: BoardModel,
) -> bool {
    &&& can_add_card(before, column_id)
    &&& after.cards.len() == before.cards.len() + 1
    &&& after == before.create_card(
        title,
        description,
        assignee,
        column_id,
        after.cards.last().created_at,
        after.updated_at,
    )
}

/// `after` is `before` with the card moved to `column_id`, whatever the clock read.
pub open spec fn card_relocated(
    before: BoardModel,
    card_id: Seq<char>,
    column_id: Seq<char>,
    after: BoardModel,
) -> bool {
    &&& before.can_move_card(card_id, column_id)
    &&& after.cards.len() == before.cards.len()
    &&& after == before.move_card(
        card_id,
        column_id,
        after.cards[before.card_index(card_id).unwrap()].updated_at,
        after.updated_at,
    )
}

/// `after` is `before` with the card changed as asked, whatever the clock read.
pub open spec fn card_revised(
    before: BoardModel,
    card_id: Seq<char>,
    title: Option<Seq<char>>,
    description: Option<Option<Seq<char>>>,
    assignee: Option<Option<Seq<char>>>,
    after: BoardModel,
) -> bool {
    &&& before.card_index(card_id) matches Some(i)
    &&& after.cards.len() == before.cards.len()
    &&& after == (BoardModel {
        cards: before.cards.update(
            i,
            before.cards[i].revise(title, description, assignee, after.cards[i].updated_at),
        ),
        ..before
    })
}

/// `after` is `before` without the card, whatever the clock read.
pub open spec fn card_discarded(before: BoardModel, card_id: Seq<char>, after: BoardModel) -> bool {
    &&& before.has_card(card_id)
    &&& after == before.delete_card(card_id, after.updated_at)
}

/// Makes a card on a board in memory, in the column named or else in "todo", and returns the
/// card's identifier.
///
/// Unlike the board's own `create_card`, this first makes sure that the board has the column,
/// so that the card is always listed where it says it is. Fails with `ColumnNotFound`, the
/// column's name in it, where the board has no such column, and with `InvalidData` where the
/// board has no card number left; the board is then as it was.
pub fn add_card(
    board: &mut Board,
    title: String,
    description: Option<String>,
    assignee: Option<String>,
    column_id: Option<String>,
) -> (result: Result<String, CardServiceError>)
    ensures
        result is Ok == can_add_card(old(board)@, optional_text(column_id)),
        old(board)@.wf() ==> final(board)@.wf(),
        match result {
            Ok(card_id) => {
                &&& card_id@ == old(board)@.next_card_id()
                &&& card_added(
                    old(board)@,
                    title@,
                    optional_text(description),
                    optional_text(assignee),
                    optional_text(column_id),
                    final(board)@,
                )
            },
            Err(error) => {
                &&& *final(board) == *old(board)
                &&& if old(board)@.has_column(BoardModel::target_column(optional_text(column_id))) {
                    error is InvalidData
                } else {
                    error matches CardServiceError::ColumnNotFound(name) && name@
                        == BoardModel::target_column(optional_text(column_id))
                }
            },
        },
{
    let missing = match &column_id {
        Some(id) => board.find_column(id.as_str()).is_none(),
        None => board.find_column("todo").is_none(),
    };
    if missing {
        let name = match column_id {
            Some(id) => id,
            None => String::from_str("todo"),
        };
        return Err(CardServiceError::ColumnNotFound(name));
    }
    if board.next_card_number == u32::MAX {
        return Err(
            CardServiceError::InvalidData(String::from_str("the board has no card number left")),
        );
    }
    let card_id = board.create_card(title, description, assignee, column_id);
    assert(board@.cards.last() == board.cards[old(board).cards.len() as int]@);
    Ok(card_id)
}

/// Moves a card to another column, on a board in memory.
///
/// Fails with `CardNotFound` where the board has no such card, and else with `ColumnNotFound`
/// where it has no such column, each with the name that was not found; the board is then as
/// it was.
pub fn relocate_card(board: &mut Board, card_id: &str, column_id: &str) -> (result: Result<
    (),
    CardServiceError,
>)
    ensures
        result is Ok == old(board)@.can_move_card(card_id@, column_id@),
        old(board)@.wf() ==> final(board)@.wf(),
        match result {
            Ok(()) => card_relocated(old(board)@, card_id@, column_id@, final(board)@),
            Err(error) => {
                &&& *final(board) == *old(board)
                &&& if old(board)@.has_card(card_id@) {
                    error matches CardServiceError::ColumnNotFound(name) && name@ == column_id@
                } else {
                    error matches CardServiceError::CardNotFound(name) && name@ == card_id@
                }
            },
        },
{
    if board.find_card(card_id).is_none() {
        return Err(CardServiceError::CardNotFound(String::from_str(card_id)));
    }
    if board.find_column(column_id).is_none() {
        return Err(CardServiceError::ColumnNotFound(String::from_str(column_id)));
    }
    let moved = board.move_card(card_id, column_id);
    if !moved {
        return Err(CardServiceError::CardNotFound(String::from_str(card_id)));
    }
    proof {
        old(board)@.card_ids().index_of_first_ensures(card_id@);
    }
    Ok(())
}

/// Changes a card's title, description and assignee, on a board in memory: each where a
/// change is given. For description and assignee `Some(None)` clears the field, `None`
/// leaves it as it is. The card is stamped if anything is given; the board is not.
///
/// Fails with `CardNotFound` where the board has no such card; the board is then as it was.
pub fn revise_card(
    board: &mut Board,
    card_id: &str,
    title: Option<String>,
    description: Option<Option<String>>,
    assignee: Option<Option<String>>,
) -> (result: Result<(), CardServiceError>)
    ensures
        result is Ok == old(board)@.has_card(card_id@),
        old(board)@.wf() ==> final(board)@.wf(),
        match result {
            Ok(()) => card_revised(
                old(board)@,
                card_id@,
                optional_text(title),
                optional_change(description),
                optional_change(assignee),
                final(board)@,
            ),
            Err(error) => {
                &&& *final(board) == *old(board)
                &&& error matches CardServiceError::CardNotFound(name)
                &&& name@ == card_id@
            },
        },
{
    let index = match board.find_card(card_id) {
        Some(index) => index,
        None => {
            return Err(CardServiceError::CardNotFound(String::from_str(card_id)));
        },
    };
    if let Some(new_title) = title {
        board.cards[index].set_title(new_title);
    }
    if let Some(new_description) = description {
        board.cards[index].set_description(new_description);
    }
    if let Some(new_assignee) = assignee {
        board.cards[index].set_assignee(new_assignee);
    }
    assert(board@.cards =~= old(board)@.cards.update(
        index as int,
        old(board)@.cards[index as int].revise(
            optional_text(title),
            optional_change(description),
            optional_change(assignee),
            board@.cards[index as int].updated_at,
        ),
    ));
    assert(board@.columns =~= old(board)@.columns);
    proof {
        if old(board)@.wf() {
            lemma_revise_keeps_wf(
                old(board)@,
                index as int,
                optional_text(title),
                optional_change(description),
                optional_change(assignee),
                board@,
            );
        }
    }
    Ok(())
}

/// Deletes a card, on a board in memory. Fails with `CardNotFound` where the board has no such
/// card; the board is then as it was.
pub fn discard_card(board: &mut Board, card_id: &str) -> (result: Result<(), CardServiceError>)
    ensures
        result is Ok == old(board)@.has_card(card_id@),
        old(board)@.wf() ==> final(board)@.wf(),
        result is Ok ==> card_discarded(old(board)@, card_id@, final(board)@),
        result matches Err(error) ==> {
            &&& *final(board) == *old(board)
            &&& error matches CardServiceError::CardNotFound(name)
            &&& name@ == card_id@
        },
{
    let deleted = board.delete_card(card_id);
    if !deleted {
        return Err(CardServiceError::CardNotFound(String::from_str(card_id)));
    }
    Ok(())
}

/// Makes sure that the board has a card called `card_id`. Fails with `CardNotFound` where it
/// has not.
pub fn require_card(board: &Board, card_id: &str) -> (result: Result<(), CardServiceError>)
    ensures
        result is Ok == board@.has_card(card_id@),
        result matches Err(error) ==> error matches CardServiceError::CardNotFound(name) && name@
            == card_id@,
{
    if board.find_card(card_id).is_none() {
        return Err(CardServiceError::CardNotFound(String::from_str(card_id)));
    }
    Ok(())
}

/// The cards of stored boards.
pub struct CardService<R: BoardRepository> {
    board_service: BoardService<R>,
}

impl<R: BoardRepository> CardService<R> {
    /// The service on whole boards that this one loads and saves through.
    pub closed spec fn boards(self) -> BoardService<R> {
        self.board_service
    }

    /// A service on the cards of the boards that `repository` keeps.
    pub fn new(repository: R) -> (service: Self)
        ensures
            service.boards().store() == repository,
    {
        CardService { board_service: BoardService::new(repository) }
    }

    /// The service on whole boards that this one loads and saves through.
    pub fn board_service(&self) -> (boards: &BoardService<R>)
        ensures
            *boards == self.boards(),
    {
        &self.board_service
    }

    /// Makes a card on the board of the project at `base_path`, as [`add_card`] does, and
    /// saves the board. Returns the card's identifier with the board as it was saved.
    ///
    /// Fails with `BoardService` where the board could not be loaded or saved, and as
    /// [`add_card`] does; nothing is saved then.
    pub fn create(
        &self,
        base_path: &Path,
        title: String,
        description: Option<String>,
        assignee: Option<String>,
        column_id: Option<String>,
    ) -> (result: Result<CreatedCardInfo, CardServiceError>)
        ensures
            match result {
                Ok(info) => exists|before: BoardModel|
                    {
                        &&& info.card_id@ == before.next_card_id()
                        &&& #[trigger] card_added(
                            before,
                            title@,
                            optional_text(description),
                            optional_text(assignee),
                            optional_text(column_id),
                            info.board@,
                        )
                    },
                Err(CardServiceError::BoardService(error)) => error is BoardNotFound
                    || error is Storage,
                Err(CardServiceError::ColumnNotFound(name)) => name@ == BoardModel::target_column(
                    optional_text(column_id),
                ),
                Err(CardServiceError::InvalidData(_)) => true,
                Err(_) => false,
            },
    {
        let mut board = match self.board_service.load(base_path) {
            Ok(board) => board,
            Err(error) => {
                return Err(CardServiceError::BoardService(error));
            },
        };
        let ghost before = board@;
        let card_id = match add_card(&mut board, title, description, assignee, column_id) {
            Ok(card_id) => card_id,
            Err(error) => {
                return Err(error);
            },
        };
        match self.board_service.save(&board, base_path) {
            Ok(()) => {},
            Err(error) => {
                return Err(CardServiceError::BoardService(error));
            },
        }
        let result: Result<CreatedCardInfo, CardServiceError> = Ok(
            CreatedCardInfo { card_id, board },
        );
        assert(card_added(
            before,
            title@,
            optional_text(description),
            optional_text(assignee),
            optional_text(column_id),
            result->Ok_0.board@,
        ));
        result
    }

    /// Moves a card of the board of the project at `base_path` to another column, as
    /// [`relocate_card`] does, and saves the board. Returns the board as it was saved.
    ///
    /// Fails with `BoardService` where the board could not be loaded or saved, and as
    /// [`relocate_card`] does; nothing is saved then.
    pub fn move_to(&self, base_path: &Path, card_id: &str, column_id: &str) -> (result: Result<
        Board,
        CardServiceError,
    >)
        ensures
            match result {
                Ok(board) => exists|before: BoardModel|
                    card_relocated(before, card_id@, column_id@, board@),
                Err(CardServiceError::BoardService(error)) => error is BoardNotFound
                    || error is Storage,
                Err(CardServiceError::CardNotFound(name)) => name@ == card_id@,
                Err(CardServiceError::ColumnNotFound(name)) => name@ == column_id@,
                Err(_) => false,
            },
    {
        let mut board = match self.board_service.load(base_path) {
            Ok(board) => board,
            Err(error) => {
                return Err(CardServiceError::BoardService(error));
            },
        };
        let ghost before = board@;
        match relocate_card(&mut board, card_id, column_id) {
            Ok(()) => {},
            Err(error) => {
                return Err(error);
            },
        }
        match self.board_service.save(&board, base_path) {
            Ok(()) => {},
            Err(error) => {
                return Err(CardServiceError::BoardService(error));
            },
        }
        let result: Result<Board, CardServiceError> = Ok(board);
        assert(card_relocated(before, card_id@, column_id@, result->Ok_0@));
        result
    }

    /// Changes a card of the board of the project at `base_path`, as [`revise_card`] does, and
    /// saves the board. Returns the board as it was saved.
    ///
    /// Fails with `BoardService` where the board could not be loaded or saved, and with
    /// `CardNotFound` where it has no such card; nothing is saved then.
    pub fn update(
        &self,
        base_path: &Path,
        card_id: &str,
        title: Option<String>,
        description: Option<Option<String>>,
        assignee: Option<Option<String>>,
    ) -> (result: Result<Board, CardServiceError>)
        ensures
            match result {
                Ok(board) => exists|before: BoardModel|
                    card_revised(
                        before,
                        card_id@,
                        optional_text(title),
                        optional_change(description),
                        optional_change(assignee),
                        board@,
                    ),
                Err(CardServiceError::BoardService(error)) => error is BoardNotFound
                    || error is Storage,
                Err(CardServiceError::CardNotFound(name)) => name@ == card_id@,
                Err(_) => false,
            },
    {
        let mut board = match self.board_service.load(base_path) {
            Ok(board) => board,
            Err(error) => {
                return Err(CardServiceError::BoardService(error));
            },
        };
        let ghost before = board@;
        match revise_card(&mut board, card_id, title, description, assignee) {
            Ok(()) => {},
            Err(error) => {
                return Err(error);
            },
        }
        match self.board_service.save(&board, base_path) {
            Ok(()) => {},
            Err(error) => {
                return Err(CardServiceError::BoardService(error));
            },
        }
        let result: Result<Board, CardServiceError> = Ok(board);
        assert(card_revised(
            before,
            card_id@,
            optional_text(title),
            optional_change(description),
            optional_change(assignee),
            result->Ok_0@,
        ));
        result
    }

    /// Deletes a card of the board of the project at `base_path` and saves the board. Returns
    /// the board as it was saved.
    ///
    /// Fails with `BoardService` where the board could not be loaded or saved, and with
    /// `CardNotFound` where it has no such card; nothing is saved then.
    pub fn delete(&self, base_path: &Path, card_id: &str) -> (result: Result<
        Board,
        CardServiceError,
    >)
        ensures
            match result {
                Ok(board) => exists|before: BoardModel|
                    card_discarded(before, card_id@, board@),
                Err(CardServiceError::BoardService(error)) => error is BoardNotFound
                    || error is Storage,
                Err(CardServiceError::CardNotFound(name)) => name@ == card_id@,
                Err(_) => false,
            },
    {
        let mut board = match self.board_service.load(base_path) {
            Ok(board) => board,
            Err(error) => {
                return Err(CardServiceError::BoardService(error));
            },
        };
        let ghost before = board@;
        match discard_card(&mut board, card_id) {
            Ok(()) => {},
            Err(error) => {
                return Err(error);
            },
        }
        match self.board_service.save(&board, base_path) {
            Ok(()) => {},
            Err(error) => {
                return Err(CardServiceError::BoardService(error));
            },
        }
        let result: Result<Board, CardServiceError> = Ok(board);
        assert(card_discarded(before, card_id@, result->Ok_0@));
        result
    }

    /// Loads the board of the project at `base_path`, for a card that it must have. Fails
    /// with `BoardService` where the board could not be loaded, and with `CardNotFound` where
    /// it has no such card.
    pub fn get(&self, base_path: &Path, card_id: &str) -> (result: Result<Board, CardServiceError>)
        ensures
            match result {
                Ok(board) => board@.has_card(card_id@),
                Err(CardServiceError::BoardService(error)) => error is BoardNotFound
                    || error is Storage,
                Err(CardServiceError::CardNotFound(name)) => name@ == card_id@,
                Err(_) => false,
            },
    {
        let board = match self.board_service.load(base_path) {
            Ok(board) => board,
            Err(error) => {
                return Err(CardServiceError::BoardService(error));
            },
        };
        match require_card(&board, card_id) {
            Ok(()) => Ok(board),
            Err(error) => Err(error),
        }
    }

    /// Loads the board of the project at `base_path`, for its cards. Fails with `BoardService`
    /// where the board could not be loaded.
    pub fn list(&self, base_path: &Path) -> (result: Result<Board, CardServiceError>)
        ensures
            result matches Err(error) ==> error matches CardServiceError::BoardService(inner) && (
            inner is BoardNotFound || inner is Storage),
    {
        match self.board_service.load(base_path) {
            Ok(board) => Ok(board),
            Err(error) => Err(CardServiceError::BoardService(error)),
        }
    }
}

/// Whatever the card service does to a consistent board leaves it consistent: making a card
/// (the service makes none in a column that is not there), moving one, changing one and
/// deleting one.
pub proof fn lemma_card_service_keeps_wf(before: BoardModel, after: BoardModel)
    requires
        before.wf(),
        ({
            ||| exists|
                title: Seq<char>,
                description: Option<Seq<char>>,
                assignee: Option<Seq<char>>,
                column_id: Option<Seq<char>>,
            | #[trigger] card_added(before, title, description, assignee, column_id, after)
            ||| exists|card_id: Seq<char>, column_id: Seq<char>| #[trigger]
                card_relocated(before, card_id, column_id, after)
            ||| exists|
                card_id: Seq<char>,
                title: Option<Seq<char>>,
                description: Option<Option<Seq<char>>>,
                assignee: Option<Option<Seq<char>>>,
            | #[trigger] card_revised(before, card_id, title, description, assignee, after)
            ||| exists|card_id: Seq<char>| #[trigger] card_discarded(before, card_id, after)
        }),
    ensures
        after.wf(),
{
    if exists|
        title: Seq<char>,
        description: Option<Seq<char>>,
        assignee: Option<Seq<char>>,
        column_id: Option<Seq<char>>,
    | #[trigger] card_added(before, title, description, assignee, column_id, after) {
        let (title, description, assignee, column_id) = choose|
            title: Seq<char>,
            description: Option<Seq<char>>,
            assignee: Option<Seq<char>>,
            column_id: Option<Seq<char>>,
        | #[trigger] card_added(before, title, description, assignee, column_id, after);
        lemma_create_card_keeps_wf(
            before,
            title,
            description,
            assignee,
            column_id,
            after.cards.last().created_at,
            after.updated_at,
        );
    } else if exists|card_id: Seq<char>, column_id: Seq<char>| #[trigger]
        card_relocated(before, card_id, column_id, after) {
        let (card_id, column_id) = choose|card_id: Seq<char>, column_id: Seq<char>| #[trigger]
            card_relocated(before, card_id, column_id, after);
        lemma_move_card_keeps_wf(
            before,
            card_id,
            column_id,
            after.cards[before.card_index(card_id).unwrap()].updated_at,
            after.updated_at,
        );
    } else if exists|card_id: Seq<char>| #[trigger] card_discarded(before, card_id, after) {
        let card_id = choose|card_id: Seq<char>| #[trigger] card_discarded(before, card_id, after);
        lemma_delete_card_keeps_wf(before, card_id, after.updated_at);
    } else {
        let (card_id, title, description, assignee) = choose|
            card_id: Seq<char>,
            title: Option<Seq<char>>,
            description: Option<Option<Seq<char>>>,
            assignee: Option<Option<Seq<char>>>,
        | #[trigger] card_revised(before, card_id, title, description, assignee, after);
        before.card_ids().index_of_first_ensures(card_id);
        lemma_revise_keeps_wf(
            before,
            before.card_index(card_id).unwrap(),
            title,
            description,
            assignee,
            after,
        );
    }
}

/// Changing a card's title, description or assignee keeps a consistent board consistent: the
/// card keeps its identifier and its column.
proof fn lemma_revise_keeps_wf(
    before: BoardModel,
    i: int,
    title: Option<Seq<char>>,
    description: Option<Option<Seq<char>>>,
    assignee: Option<Option<Seq<char>>>,
    after: BoardModel,
)
    requires
        before.wf(),
        0 <= i < before.cards.len(),
        after == (BoardModel {
            cards: before.cards.update(
                i,
                before.cards[i].revise(title, description, assignee, after.cards[i].updated_at),
            ),
            ..before
        }),
    ensures
        after.wf(),
{
    assert(after.card_ids() =~= before.card_ids());
    assert(after.column_ids() =~= before.column_ids());
    assert forall|j: int| 0 <= j < after.cards.len() implies after.has_column(
        (#[trigger] after.cards[j]).column_id,
    ) by {
        assert(before.has_column(before.cards[j].column_id));
    }
    assert forall|k: int, y: Seq<char>| 0 <= k < after.columns.len() implies (
    #[trigger] after.lists(k, y) <==> after.holds(y, after.columns[k].id)) by {
        assert(before.lists(k, y) <==> before.holds(y, before.columns[k].id));
        if before.holds(y, before.columns[k].id) {
            let j = choose|j: int|
                0 <= j < before.cards.len() && (#[trigger] before.cards[j]).id == y
                    && before.cards[j].column_id == before.columns[k].id;
            assert(after.cards[j].id == y);
        }
        if after.holds(y, after.columns[k].id) {
            let j = choose|j: int|
                0 <= j < after.cards.len() && (#[trigger] after.cards[j]).id == y
                    && after.cards[j].column_id == after.columns[k].id;
            assert(before.cards[j].id == y);
        }
    }
    assert forall|n: nat| n >= after.next_card_number implies !after.has_card(
        #[trigger] card_id_text(after.card_id_prefix, n),
    ) by {
        assert(!before.has_card(card_id_text(before.card_id_prefix, n)));
    }
}

} // verus!
