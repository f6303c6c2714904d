//! The board: the one place where cards and columns change, so that the cards' own
//! `column_id` and the columns' lists of cards never drift apart.

use crate::clock::now;
use crate::clock::Timestamp;
use crate::domain::card::Card;
use crate::domain::card::CardModel;
use crate::domain::card_id::card_id_text;
use crate::domain::card_id::format_card_id;
use crate::domain::card_id::prefix_text;
use crate::domain::column::Column;
use crate::domain::column::ColumnModel;
use crate::domain::column_order::sort_columns;
use crate::domain::column_order::stably_sorted;
use crate::domain::consistency::lemma_add_column_keeps_wf;
use crate::domain::consistency::lemma_create_card_keeps_wf;
use crate::domain::consistency::lemma_delete_card_keeps_wf;
use crate::domain::consistency::lemma_fresh_is_wf;
use crate::domain::consistency::lemma_generate_card_id_keeps_wf;
use crate::domain::consistency::lemma_move_card_keeps_wf;
use crate::domain::consistency::lemma_remove_column_keeps_wf;
use crate::text::lemma_first_index;
use crate::text::optional_text;
use crate::text::same_text;
use crate::text::texts;
use vstd::prelude::*;

verus! {

/// A kanban board: the columns of one project and all its cards.
///
/// The fields are public, as the stored form of a board is, so a board can hold anything.
/// [`BoardModel::wf`] says what a consistent board is; every operation works on any board and
/// keeps a consistent one consistent.
#[derive(Debug, Clone, PartialEq)]
pub struct Board {
    /// Identifier (usually the project's name).
    pub id: String,
    /// Display name.
    pub name: String,
    /// Prefix of the card identifiers ("PRJ" in "PRJ-001").
    pub card_id_prefix: String,
    /// The number of the next card. It only grows: a deleted card's number is not used again.
    pub next_card_number: u32,
    /// The columns, in display order.
    pub columns: Vec<Column>,
    /// The cards, in no particular order: the order within a column is the column's own.
    pub cards: Vec<Card>,
    /// When the board was made.
    pub created_at: Timestamp,
    /// When the board was last changed.
    pub updated_at: Timestamp,
}

/// What a board is, in mathematical terms.
pub struct BoardModel {
    pub id: Seq<char>,
    pub name: Seq<char>,
    pub card_id_prefix: Seq<char>,
    pub next_card_number: nat,
    pub columns: Seq<ColumnModel>,
    pub cards: Seq<CardModel>,
    pub created_at: Timestamp,
    pub updated_at: Timestamp,
}

/// The models of a list of columns.
pub open spec fn column_models(columns: Seq<Column>) -> Seq<ColumnModel> {
    columns.map_values(|c: Column| c@)
}

/// The models of a list of cards.
pub open spec fn card_models(cards: Seq<Card>) -> Seq<CardModel> {
    cards.map_values(|c: Card| c@)
}

/// The identifier of the column that takes a new card where none is named.
pub open spec fn default_column_id() -> Seq<char> {
    "todo"@
}

impl View for Board {
    type V = BoardModel;

    open spec fn view(&self) -> BoardModel {
        BoardModel {
            id: self.id@,
            name: self.name@,
            card_id_prefix: self.card_id_prefix@,
            next_card_number: self.next_card_number as nat,
            columns: column_models(self.columns@),
            cards: card_models(self.cards@),
            created_at: self.created_at,
            updated_at: self.updated_at,
        }
    }
}

impl BoardModel {
    /// The identifiers of the columns, in their order.
    pub open spec fn column_ids(self) -> Seq<Seq<char>> {
        self.columns.map_values(|c: ColumnModel| c.id)
    }

    /// The identifiers of the cards, in their order.
    pub open spec fn card_ids(self) -> Seq<Seq<char>> {
        self.cards.map_values(|c: CardModel| c.id)
    }

    /// Whether a column has this identifier.
    pub open spec fn has_column(self, column_id: Seq<char>) -> bool {
        self.column_ids().contains(column_id)
    }

    /// Whether a card has this identifier.
    pub open spec fn has_card(self, card_id: Seq<char>) -> bool {
        self.card_ids().contains(card_id)
    }

    /// The position of the first column with this identifier.
    pub open spec fn column_index(self, column_id: Seq<char>) -> Option<int> {
        self.column_ids().index_of_first(column_id)
    }

    /// The position of the first card with this identifier.
    pub open spec fn card_index(self, card_id: Seq<char>) -> Option<int> {
        self.card_ids().index_of_first(card_id)
    }

    /// A new board, made at `stamp`: three columns, no cards, the first card number to come.
    pub open spec fn fresh(id: Seq<char>, name: Seq<char>, stamp: Timestamp) -> BoardModel {
        BoardModel {
            id,
            name,
            card_id_prefix: prefix_text(id),
            next_card_number: 1,
            columns: seq![
                ColumnModel::empty("todo"@, "To Do"@, 0),
                ColumnModel::empty("in_progress"@, "In Progress"@, 1),
                ColumnModel::empty("done"@, "Done"@, 2),
            ],
            cards: Seq::empty(),
            created_at: stamp,
            updated_at: stamp,
        }
    }

    /// The identifier that the next card gets.
    pub open spec fn next_card_id(self) -> Seq<char> {
        card_id_text(self.card_id_prefix, self.next_card_number)
    }

    /// The board after it has issued a card identifier at `stamp`.
    pub open spec fn generate_card_id(self, stamp: Timestamp) -> BoardModel {
        BoardModel { next_card_number: self.next_card_number + 1, updated_at: stamp, ..self }
    }

    /// The board with `card_id` listed in the first column called `column_id`; unchanged where
    /// there is no such column.
    pub open spec fn list_card(self, column_id: Seq<char>, card_id: Seq<char>) -> BoardModel {
        match self.column_index(column_id) {
            Some(k) => BoardModel {
                columns: self.columns.update(k, self.columns[k].add_card(card_id)),
                ..self
            },
            None => self,
        }
    }

    /// The board with `card_id` taken off the list of the first column called `column_id`;
    /// unchanged where there is no such column.
    pub open spec fn unlist_card(self, column_id: Seq<char>, card_id: Seq<char>) -> BoardModel {
        match self.column_index(column_id) {
            Some(k) => BoardModel {
                columns: self.columns.update(k, self.columns[k].remove_card(card_id)),
                ..self
            },
            None => self,
        }
    }

    /// The column that a new card goes to: the one named, or the default.
    pub open spec fn target_column(column_id: Option<Seq<char>>) -> Seq<char> {
        match column_id {
            Some(id) => id,
            None => default_column_id(),
        }
    }

    /// The card that `create_card` makes.
    pub open spec fn new_card(
        self,
        title: Seq<char>,
        description: Option<Seq<char>>,
        assignee: Option<Seq<char>>,
        column_id: Option<Seq<char>>,
        card_stamp: Timestamp,
    ) -> CardModel {
        CardModel {
            description,
            assignee,
            ..CardModel::created(
                self.next_card_id(),
                title,
                Self::target_column(column_id),
                card_stamp,
            )
        }
    }

    /// The board with a new card, made at `card_stamp`, in the column named or else the
    /// default one; the board itself changed at `stamp`. Where the board has no column of
    /// that name the card is on the board and in no column's list.
    pub open spec fn create_card(
        self,
        title: Seq<char>,
        description: Option<Seq<char>>,
        assignee: Option<Seq<char>>,
        column_id: Option<Seq<char>>,
        card_stamp: Timestamp,
        stamp: Timestamp,
    ) -> BoardModel {
        let card = self.new_card(title, description, assignee, column_id, card_stamp);
        let listed = self.list_card(card.column_id, card.id);
        BoardModel {
            next_card_number: self.next_card_number + 1,
            cards: self.cards.push(card),
            updated_at: stamp,
            ..listed
        }
    }

    /// A card can move where both the card and the column it is to go to exist.
    pub open spec fn can_move_card(self, card_id: Seq<char>, column_id: Seq<char>) -> bool {
        self.has_column(column_id) && self.has_card(card_id)
    }

    /// The board with the card at the end of the column `column_id`, the card changed at
    /// `card_stamp` and the board at `stamp`; unchanged where the card cannot move.
    pub open spec fn move_card(
        self,
        card_id: Seq<char>,
        column_id: Seq<char>,
        card_stamp: Timestamp,
        stamp: Timestamp,
    ) -> BoardModel {
        if self.can_move_card(card_id, column_id) {
            let i = self.card_index(card_id).unwrap();
            let relisted = self.unlist_card(self.cards[i].column_id, card_id).list_card(
                column_id,
                card_id,
            );
            BoardModel {
                cards: self.cards.update(i, self.cards[i].move_to(column_id, card_stamp)),
                updated_at: stamp,
                ..relisted
            }
        } else {
            self
        }
    }

    /// The cards whose `column_id` is `column_id`, in the order of the board's own list.
    pub open spec fn cards_in_column(self, column_id: Seq<char>) -> Seq<CardModel> {
        self.cards.filter(|c: CardModel| c.column_id == column_id)
    }

    /// The position of the first column that is not called `column_id`.
    pub open spec fn other_column_index(self, column_id: Seq<char>) -> Option<int> {
        if exists|k: int| self.is_other_column(column_id, k) {
            Some(choose|k: int| self.is_other_column(column_id, k))
        } else {
            None
        }
    }

    /// Whether the column at `k` is the first that is not called `column_id`.
    pub open spec fn is_other_column(self, column_id: Seq<char>, k: int) -> bool {
        &&& 0 <= k < self.columns.len()
        &&& self.columns[k].id != column_id
        &&& forall|j: int| 0 <= j < k ==> self.columns[j].id == column_id
    }

    /// The board after the cards `card_ids` have moved to `column_id` one after the other, the
    /// move of the card at `i` stamped with the pair `stamps[i]`.
    pub open spec fn relocate(
        self,
        card_ids: Seq<Seq<char>>,
        column_id: Seq<char>,
        stamps: Seq<(Timestamp, Timestamp)>,
    ) -> BoardModel
        decreases card_ids.len(),
    {
        if card_ids.len() == 0 {
            self
        } else {
            self.relocate(card_ids.drop_last(), column_id, stamps.drop_last()).move_card(
                card_ids.last(),
                column_id,
                stamps.last().0,
                stamps.last().1,
            )
        }
    }

    /// A column can be removed where it exists and another column is there to take its cards.
    pub open spec fn can_remove_column(self, column_id: Seq<char>) -> bool {
        &&& self.columns.len() > 1
        &&& self.has_column(column_id)
        &&& self.other_column_index(column_id) is Some
    }

    /// The board without the first column called `column_id`, changed at `stamp`: the cards
    /// that the column listed have first moved, in the order of its list, to the first column
    /// of another name. Unchanged where the column cannot be removed.
    pub open spec fn remove_column(
        self,
        column_id: Seq<char>,
        stamps: Seq<(Timestamp, Timestamp)>,
        stamp: Timestamp,
    ) -> BoardModel {
        if self.can_remove_column(column_id) {
            let pos = self.column_index(column_id).unwrap();
            let target = self.columns[self.other_column_index(column_id).unwrap()].id;
            let moved = self.relocate(self.columns[pos].cards, target, stamps);
            BoardModel { columns: moved.columns.remove(pos), updated_at: stamp, ..moved }
        } else {
            self
        }
    }

    /// The board without the card, changed at `stamp`; unchanged where it has no such card.
    pub open spec fn delete_card(self, card_id: Seq<char>, stamp: Timestamp) -> BoardModel {
        match self.card_index(card_id) {
            Some(i) => {
                let unlisted = self.unlist_card(self.cards[i].column_id, card_id);
                BoardModel { cards: self.cards.remove(i), updated_at: stamp, ..unlisted }
            },
            None => self,
        }
    }
}

impl Board {
    /// A new board with the three columns "todo", "in_progress" and "done", no cards, and a
    /// card prefix taken from `id`.
    pub fn new(id: String, name: String) -> (board: Board)
        ensures
            board@ == BoardModel::fresh(id@, name@, board.created_at),
            board@.wf(),
    {
        let stamp = now();
        let prefix = Self::generate_prefix(id.as_str());
        let mut columns: Vec<Column> = Vec::new();
        columns.push(Column::new(String::from_str("todo"), String::from_str("To Do"), 0));
        columns.push(
            Column::new(String::from_str("in_progress"), String::from_str("In Progress"), 1),
        );
        columns.push(Column::new(String::from_str("done"), String::from_str("Done"), 2));
        let board = Board {
            id,
            name,
            card_id_prefix: prefix,
            next_card_number: 1,
            columns,
            cards: Vec::new(),
            created_at: stamp,
            updated_at: stamp,
        };
        assert(board@.columns =~= BoardModel::fresh(id@, name@, stamp).columns);
        assert(board@.cards =~= Seq::empty());
        proof {
            lemma_fresh_is_wf(id@, name@, stamp);
        }
        board
    }

    /// The prefix that a board called `board_id` gives its cards: the first three alphabetic
    /// characters of the identifier, in upper case.
    pub fn generate_prefix(board_id: &str) -> (prefix: String)
        ensures
            prefix@ == prefix_text(board_id@),
    {
        crate::domain::card_id::generate_prefix(board_id)
    }

    /// The position of the first column called `column_id`.
    pub fn find_column(&self, column_id: &str) -> (found: Option<usize>)
        ensures
            match found {
                Some(k) => self@.column_index(column_id@) == Some(k as int) && k
                    < self.columns.len(),
                None => self@.column_index(column_id@) is None,
            },
            found is Some == self@.has_column(column_id@),
    {
        let mut k: usize = 0;
        while k < self.columns.len()
            invariant
                k <= self.columns.len(),
                forall|j: int| 0 <= j < k ==> self@.column_ids()[j] != column_id@,
            decreases self.columns.len() - k,
        {
            if same_text(self.columns[k].id.as_str(), column_id) {
                proof {
                    lemma_first_index(self@.column_ids(), column_id@, k as int);
                }
                return Some(k);
            }
            k += 1;
        }
        proof {
            self@.column_ids().index_of_first_ensures(column_id@);
        }
        None
    }

    /// The position of the first card called `card_id`.
    pub fn find_card(&self, card_id: &str) -> (found: Option<usize>)
        ensures
            match found {
                Some(i) => self@.card_index(card_id@) == Some(i as int) && i < self.cards.len(),
                None => self@.card_index(card_id@) is None,
            },
            found is Some == self@.has_card(card_id@),
    {
        let mut i: usize = 0;
        while i < self.cards.len()
            invariant
                i <= self.cards.len(),
                forall|j: int| 0 <= j < i ==> self@.card_ids()[j] != card_id@,
            decreases self.cards.len() - i,
        {
            if same_text(self.cards[i].id.as_str(), card_id) {
                proof {
                    lemma_first_index(self@.card_ids(), card_id@, i as int);
                }
                return Some(i);
            }
            i += 1;
        }
        proof {
            self@.card_ids().index_of_first_ensures(card_id@);
        }
        None
    }

    /// Issues the identifier of the next card: the prefix, a hyphen, and the card number in
    /// at least three digits. The number is used up, whether or not a card is made with it.
    pub fn generate_card_id(&mut self) -> (id: String)
        requires
            old(self).next_card_number < u32::MAX,
        ensures
            id@ == old(self)@.next_card_id(),
            final(self)@ == old(self)@.generate_card_id(final(self).updated_at),
            old(self)@.wf() ==> final(self)@.wf() && !final(self)@.has_card(id@),
    {
        let id = format_card_id(self.card_id_prefix.as_str(), self.next_card_number);
        self.next_card_number = self.next_card_number + 1;
        self.updated_at = now();
        proof {
            if old(self)@.wf() {
                lemma_generate_card_id_keeps_wf(old(self)@, self.updated_at);
                assert(self@.card_ids() =~= old(self)@.card_ids());
            }
        }
        id
    }

    /// Lists `card_id` in the first column called `column_id`, if there is one.
    fn list_card(&mut self, column_id: &str, card_id: String)
        ensures
            final(self)@ == old(self)@.list_card(column_id@, card_id@),
            final(self).columns.len() == old(self).columns.len(),
            final(self).cards == old(self).cards,
    {
        match self.find_column(column_id) {
            Some(k) => {
                self.columns[k].add_card(card_id);
                assert(self@.columns =~= old(self)@.columns.update(
                    k as int,
                    old(self)@.columns[k as int].add_card(card_id@),
                ));
                assert(self@.cards =~= old(self)@.cards);
            },
            None => {},
        }
    }

    /// Takes `card_id` off the list of the first column called `column_id`, if there is one.
    fn unlist_card(&mut self, column_id: &str, card_id: &str)
        ensures
            final(self)@ == old(self)@.unlist_card(column_id@, card_id@),
            final(self).columns.len() == old(self).columns.len(),
            final(self).cards == old(self).cards,
    {
        match self.find_column(column_id) {
            Some(k) => {
                self.columns[k].remove_card(card_id);
                assert(self@.columns =~= old(self)@.columns.update(
                    k as int,
                    old(self)@.columns[k as int].remove_card(card_id@),
                ));
                assert(self@.cards =~= old(self)@.cards);
            },
            None => {},
        }
    }

    /// Makes a card and returns its identifier. The card goes to the column named, or to
    /// "todo" where none is; it is listed last there.
    ///
    /// The column is not looked up first: where the board has no column of that name the card
    /// stands on the board with that `column_id` and in no column's list. Whoever calls
    /// checks the column, as the card service does.
    pub fn create_card(
        &mut self,
        title: String,
        description: Option<String>,
        assignee: Option<String>,
        column_id: Option<String>,
    ) -> (card_id: String)
        requires
            old(self).next_card_number < u32::MAX,
        ensures
            card_id@ == old(self)@.next_card_id(),
            final(self).cards.len() == old(self).cards.len() + 1,
            final(self)@ == old(self)@.create_card(
                title@,
                optional_text(description),
                optional_text(assignee),
                optional_text(column_id),
                final(self).cards[old(self).cards.len() as int].created_at,
                final(self).updated_at,
            ),
            old(self)@.wf() && old(self)@.has_column(
                BoardModel::target_column(optional_text(column_id)),
            ) ==> final(self)@.wf(),
    {
        let card_id = self.generate_card_id();
        let target_column = match column_id {
            Some(id) => id,
            None => String::from_str("todo"),
        };
        let mut card = Card::new(card_id.clone(), title, target_column.clone());
        card.description = description;
        card.assignee = assignee;
        self.list_card(target_column.as_str(), card_id.clone());
        self.cards.push(card);
        self.updated_at = now();
        assert(self@.cards =~= old(self)@.cards.push(card@));
        proof {
            if old(self)@.wf() && old(self)@.has_column(target_column@) {
                lemma_create_card_keeps_wf(
                    old(self)@,
                    title@,
                    optional_text(description),
                    optional_text(assignee),
                    optional_text(column_id),
                    card.created_at,
                    self.updated_at,
                );
            }
        }
        card_id
    }

    /// Moves a card to the end of another column. Returns `false`, and changes nothing, where
    /// the board has no such card or no such column.
    ///
    /// The card leaves the list of the column it was in and is listed last in the new one,
    /// its `column_id` follows, and both the card and the board are stamped.
    pub fn move_card(&mut self, card_id: &str, target_column_id: &str) -> (moved: bool)
        ensures
            moved == old(self)@.can_move_card(card_id@, target_column_id@),
            !moved ==> *final(self) == *old(self),
            final(self).cards.len() == old(self).cards.len(),
            final(self).columns.len() == old(self).columns.len(),
            moved ==> final(self)@ == old(self)@.move_card(
                card_id@,
                target_column_id@,
                final(self).cards[old(self)@.card_index(card_id@).unwrap()].updated_at,
                final(self).updated_at,
            ),
            old(self)@.wf() ==> final(self)@.wf(),
    {
        if self.find_column(target_column_id).is_none() {
            return false;
        }
        let index = match self.find_card(card_id) {
            Some(index) => index,
            None => {
                return false;
            },
        };
        let source_column_id = self.cards[index].column_id.clone();
        self.unlist_card(source_column_id.as_str(), card_id);
        self.list_card(target_column_id, String::from_str(card_id));
        self.cards[index].move_to(String::from_str(target_column_id));
        self.updated_at = now();
        assert(self@.cards =~= old(self)@.cards.update(
            index as int,
            old(self)@.cards[index as int].move_to(
                target_column_id@,
                self.cards[index as int].updated_at,
            ),
        ));
        proof {
            if old(self)@.wf() {
                lemma_move_card_keeps_wf(
                    old(self)@,
                    card_id@,
                    target_column_id@,
                    self.cards[index as int].updated_at,
                    self.updated_at,
                );
            }
        }
        true
    }

    /// The first card called `card_id`, if there is one.
    pub fn get_card(&self, card_id: &str) -> (found: Option<&Card>)
        ensures
            match found {
                Some(card) => self@.card_index(card_id@) matches Some(i) && *card
                    == self.cards[i],
                None => !self@.has_card(card_id@),
            },
    {
        match self.find_card(card_id) {
            Some(i) => Some(&self.cards[i]),
            None => None,
        }
    }

    /// The first card called `card_id`, to be changed in place.
    pub fn get_card_mut(&mut self, card_id: &str) -> (found: Option<&mut Card>)
        ensures
            match found {
                Some(card) => old(self)@.card_index(card_id@) matches Some(i) && *card == old(
                    self,
                ).cards[i] && *final(self) == (Board {
                    cards: final(self).cards,
                    ..*old(self)
                }) && final(self).cards@ == old(self).cards@.update(i, *final(card)),
                None => !old(self)@.has_card(card_id@) && *final(self) == *old(self),
            },
    {
        match self.find_card(card_id) {
            Some(i) => Some(&mut self.cards[i]),
            None => None,
        }
    }

    /// The cards whose `column_id` is `column_id`, in the order of the board's own list of
    /// cards. That is not the order in which the column shows them: for that, go through the
    /// column's `cards` and look each card up.
    pub fn get_cards_in_column(&self, column_id: &str) -> (found: Vec<&Card>)
        ensures
            found@.map_values(|c: &Card| c@) == self@.cards_in_column(column_id@),
    {
        let mut found: Vec<&Card> = Vec::new();
        let ghost wanted = |c: CardModel| c.column_id == column_id@;
        assert(found@.map_values(|c: &Card| c@) =~= Seq::empty());
        assert(self@.cards.take(0).filter(wanted) =~= Seq::empty()) by {
            reveal(Seq::filter);
        }
        let mut i: usize = 0;
        while i < self.cards.len()
            invariant
                i <= self.cards.len(),
                wanted == (|c: CardModel| c.column_id == column_id@),
                found@.map_values(|c: &Card| c@) == self@.cards.take(i as int).filter(wanted),
            decreases self.cards.len() - i,
        {
            let card = &self.cards[i];
            let ghost before = found@.map_values(|c: &Card| c@);
            proof {
                assert(self@.cards.take(i + 1) =~= self@.cards.take(i as int).push(card@));
                self@.cards.take(i as int).lemma_filter_push(card@, wanted);
            }
            if same_text(card.column_id.as_str(), column_id) {
                found.push(card);
                assert(found@.map_values(|c: &Card| c@) =~= before.push(card@));
            }
            i += 1;
        }
        assert(self@.cards.take(self.cards.len() as int) =~= self@.cards);
        found
    }

    /// Adds an empty column and puts the columns in display order: by `order`, and among
    /// columns of one order the one that stood first stays first, the new one last.
    pub fn add_column(&mut self, id: String, name: String, order: u32)
        ensures
            stably_sorted(
                final(self)@.columns,
                old(self)@.columns.push(ColumnModel::empty(id@, name@, order)),
            ),
            final(self)@ == (BoardModel {
                columns: final(self)@.columns,
                updated_at: final(self).updated_at,
                ..old(self)@
            }),
            old(self)@.wf() && !old(self)@.has_column(id@) ==> final(self)@.wf(),
    {
        let column = Column::new(id, name, order);
        self.columns.push(column);
        assert(column_models(self.columns@) =~= old(self)@.columns.push(column@));
        sort_columns(&mut self.columns);
        self.updated_at = now();
        proof {
            if old(self)@.wf() && !old(self)@.has_column(id@) {
                lemma_add_column_keeps_wf(old(self)@, id@, name@, order, self@);
            }
        }
    }

    /// The position of the first column that is not called `column_id`.
    fn find_other_column(&self, column_id: &str) -> (found: Option<usize>)
        ensures
            match found {
                Some(k) => self@.other_column_index(column_id@) == Some(k as int) && k
                    < self.columns.len(),
                None => self@.other_column_index(column_id@) is None,
            },
    {
        let mut k: usize = 0;
        while k < self.columns.len()
            invariant
                k <= self.columns.len(),
                forall|j: int| 0 <= j < k ==> self@.columns[j].id == column_id@,
            decreases self.columns.len() - k,
        {
            if !same_text(self.columns[k].id.as_str(), column_id) {
                proof {
                    let model = self@;
                    assert(model.is_other_column(column_id@, k as int));
                    let chosen = choose|c: int| model.is_other_column(column_id@, c);
                    assert(model.is_other_column(column_id@, chosen));
                    assert(chosen == k);
                }
                return Some(k);
            }
            k += 1;
        }
        None
    }

    /// Removes a column. The cards that it lists first move, in the order of its list, to the
    /// end of the first column of another name; each such move is one `move_card`, stamps
    /// included. Returns `false`, and changes nothing, where the board has no such column,
    /// where it is the board's only column, or where no column of another name is there to
    /// take the cards.
    pub fn remove_column(&mut self, column_id: &str) -> (removed: bool)
        ensures
            removed == old(self)@.can_remove_column(column_id@),
            !removed ==> *final(self) == *old(self),
            removed ==> exists|stamps: Seq<(Timestamp, Timestamp)>|
                final(self)@ == #[trigger] old(self)@.remove_column(
                    column_id@,
                    stamps,
                    final(self).updated_at,
                ),
            old(self)@.wf() ==> final(self)@.wf(),
    {
        if self.columns.len() <= 1 {
            return false;
        }
        let pos = match self.find_column(column_id) {
            Some(pos) => pos,
            None => {
                return false;
            },
        };
        let target = match self.find_other_column(column_id) {
            Some(k) => self.columns[k].id.clone(),
            None => {
                return false;
            },
        };
        let ghost card_ids = self@.columns[pos as int].cards;
        let ghost stamps: Seq<(Timestamp, Timestamp)> = Seq::empty();
        let count = self.columns[pos].cards.len();
        let mut cards_to_move: Vec<String> = Vec::new();
        let mut n: usize = 0;
        while n < count
            invariant
                n <= count,
                pos < self.columns.len(),
                count == self.columns[pos as int].cards.len(),
                *self == *old(self),
                card_ids == texts(self.columns[pos as int].cards@),
                texts(cards_to_move@) == card_ids.take(n as int),
            decreases count - n,
        {
            let ghost before = texts(cards_to_move@);
            cards_to_move.push(self.columns[pos].cards[n].clone());
            assert(texts(cards_to_move@) =~= before.push(card_ids[n as int]));
            assert(card_ids.take(n + 1) =~= card_ids.take(n as int).push(card_ids[n as int]));
            n += 1;
        }
        assert(card_ids.take(count as int) =~= card_ids);
        let mut i: usize = 0;
        while i < cards_to_move.len()
            invariant
                i <= cards_to_move.len(),
                texts(cards_to_move@) == card_ids,
                stamps.len() == i,
                self.columns.len() == old(self).columns.len(),
                self@ == old(self)@.relocate(card_ids.take(i as int), target@, stamps),
            decreases cards_to_move.len() - i,
        {
            let ghost before = self@;
            let ghost index = before.card_index(card_ids[i as int]);
            let moved = self.move_card(cards_to_move[i].as_str(), target.as_str());
            proof {
                let pair = if moved {
                    (self.cards[index.unwrap()].updated_at, self.updated_at)
                } else {
                    (self.updated_at, self.updated_at)
                };
                assert(card_ids.take(i + 1).drop_last() =~= card_ids.take(i as int));
                assert(stamps.push(pair).drop_last() =~= stamps);
                stamps = stamps.push(pair);
            }
            i += 1;
        }
        assert(card_ids.take(cards_to_move.len() as int) =~= card_ids);
        let ghost moved = self@;
        self.columns.remove(pos);
        self.updated_at = now();
        assert(self@.columns =~= moved.columns.remove(pos as int));
        assert(self@.cards =~= moved.cards);
        assert(self@ == old(self)@.remove_column(column_id@, stamps, self.updated_at));
        proof {
            if old(self)@.wf() {
                lemma_remove_column_keeps_wf(old(self)@, column_id@, stamps, self.updated_at);
            }
        }
        true
    }

    /// Deletes a card: from the board, and from the list of the column it was in. Returns
    /// `false`, and changes nothing, where the board has no such card.
    pub fn delete_card(&mut self, card_id: &str) -> (deleted: bool)
        ensures
            deleted == old(self)@.has_card(card_id@),
            !deleted ==> *final(self) == *old(self),
            final(self)@ == old(self)@.delete_card(card_id@, final(self).updated_at),
            old(self)@.wf() ==> final(self)@.wf(),
    {
        match self.find_card(card_id) {
            Some(pos) => {
                let column_id = self.cards[pos].column_id.clone();
                self.unlist_card(column_id.as_str(), card_id);
                self.cards.remove(pos);
                self.updated_at = now();
                assert(self@.cards =~= old(self)@.cards.remove(pos as int));
                proof {
                    if old(self)@.wf() {
                        lemma_delete_card_keeps_wf(old(self)@, card_id@, self.updated_at);
                    }
                }
                true
            },
            None => false,
        }
    }
}

/// Moving a card leaves the columns in their places under their names: only their lists of
/// cards change.
pub proof fn lemma_move_card_keeps_columns(
    board: BoardModel,
    card_id: Seq<char>,
    column_id: Seq<char>,
    card_stamp: Timestamp,
    stamp: Timestamp,
)
    ensures
        board.move_card(card_id, column_id, card_stamp, stamp).column_ids() == board.column_ids(),
{
    let after = board.move_card(card_id, column_id, card_stamp, stamp);
    if board.can_move_card(card_id, column_id) {
        let i = board.card_index(card_id).unwrap();
        let unlisted = board.unlist_card(board.cards[i].column_id, card_id);
        board.column_ids().index_of_first_ensures(board.cards[i].column_id);
        assert(unlisted.column_ids() =~= board.column_ids());
        unlisted.column_ids().index_of_first_ensures(column_id);
        assert(unlisted.list_card(column_id, card_id).column_ids() =~= board.column_ids());
        assert(after.column_ids() =~= board.column_ids());
    }
}

/// Moving cards one after the other leaves the columns in their places under their names.
pub proof fn lemma_relocate_keeps_columns(
    board: BoardModel,
    card_ids: Seq<Seq<char>>,
    column_id: Seq<char>,
    stamps: Seq<(Timestamp, Timestamp)>,
)
    ensures
        board.relocate(card_ids, column_id, stamps).column_ids() == board.column_ids(),
    decreases card_ids.len(),
{
    if card_ids.len() > 0 {
        lemma_relocate_keeps_columns(board, card_ids.drop_last(), column_id, stamps.drop_last());
        lemma_move_card_keeps_columns(
            board.relocate(card_ids.drop_last(), column_id, stamps.drop_last()),
            card_ids.last(),
            column_id,
            stamps.last().0,
            stamps.last().1,
        );
    }
}

} // verus!
