//! A column of the board: a named stage of the workflow and the ordered list of its cards.

use crate::text::find_text;
use crate::text::lemma_first_index;
use crate::text::texts;
use vstd::prelude::*;

verus! {

/// A workflow stage, such as "To Do". `cards` is the order in which the column shows its
/// cards; the board keeps it in step with the cards' own `column_id`.
#[derive(Debug, Clone, PartialEq)]
pub struct Column {
    /// Identifier, stable and unique within a board (for instance "in_progress").
    pub id: String,
    /// Display name.
    pub name: String,
    /// Position on the board: a lower order stands further left.
    pub order: u32,
    /// Identifiers of the cards in this column, in display order.
    pub cards: Vec<String>,
}

/// What a column is, in mathematical terms.
pub struct ColumnModel {
    pub id: Seq<char>,
    pub name: Seq<char>,
    pub order: u32,
    pub cards: Seq<Seq<char>>,
}

impl View for Column {
    type V = ColumnModel;

    open spec fn view(&self) -> ColumnModel {
        ColumnModel { id: self.id@, name: self.name@, order: self.order, cards: texts(self.cards@) }
    }
}

impl ColumnModel {
    /// An empty column.
    pub open spec fn empty(id: Seq<char>, name: Seq<char>, order: u32) -> ColumnModel {
        ColumnModel { id, name, order, cards: Seq::empty() }
    }

    /// The column with `card_id` at its end, or unchanged where it lists the card already.
    pub open spec fn add_card(self, card_id: Seq<char>) -> ColumnModel {
        if self.cards.contains(card_id) {
            self
        } else {
            ColumnModel { cards: self.cards.push(card_id), ..self }
        }
    }

    /// The column without the first entry for `card_id`.
    pub open spec fn remove_card(self, card_id: Seq<char>) -> ColumnModel {
        ColumnModel { cards: self.cards.remove_value(card_id), ..self }
    }

    /// Whether `card_id` can move one place towards the top: it is listed, and not first.
    pub open spec fn can_move_up(self, card_id: Seq<char>) -> bool {
        self.cards.index_of_first(card_id) matches Some(i) && i > 0
    }

    /// Whether `card_id` can move one place towards the bottom: it is listed, and not last.
    pub open spec fn can_move_down(self, card_id: Seq<char>) -> bool {
        self.cards.index_of_first(card_id) matches Some(i) && i + 1 < self.cards.len()
    }

    /// The column with the entries at `i` and `j` exchanged.
    pub open spec fn swapped(self, i: int, j: int) -> ColumnModel {
        ColumnModel { cards: self.cards.update(i, self.cards[j]).update(j, self.cards[i]), ..self }
    }

    /// The column with `card_id` exchanged with the entry above it, where it can move up.
    pub open spec fn move_card_up(self, card_id: Seq<char>) -> ColumnModel {
        if self.can_move_up(card_id) {
            let i = self.cards.index_of_first(card_id).unwrap();
            self.swapped(i - 1, i)
        } else {
            self
        }
    }

    /// The column with `card_id` exchanged with the entry below it, where it can move down.
    pub open spec fn move_card_down(self, card_id: Seq<char>) -> ColumnModel {
        if self.can_move_down(card_id) {
            let i = self.cards.index_of_first(card_id).unwrap();
            self.swapped(i, i + 1)
        } else {
            self
        }
    }

    /// A column lists no card twice.
    pub open spec fn wf(self) -> bool {
        self.cards.no_duplicates()
    }
}

impl Column {
    /// A new column without cards.
    pub fn new(id: String, name: String, order: u32) -> (column: Column)
        ensures
            column@ == ColumnModel::empty(id@, name@, order),
    {
        let column = Column { id, name, order, cards: Vec::new() };
        assert(texts(column.cards@) =~= Seq::empty());
        column
    }

    /// Lists `card_id` at the end of the column. Does nothing where the column lists it
    /// already, so that adding twice is the same as adding once.
    pub fn add_card(&mut self, card_id: String)
        ensures
            final(self)@ == old(self)@.add_card(card_id@),
            old(self)@.cards.contains(card_id@) ==> *final(self) == *old(self),
    {
        proof {
            texts(self.cards@).index_of_first_ensures(card_id@);
        }
        match find_text(&self.cards, card_id.as_str()) {
            Some(_) => {},
            None => {
                self.cards.push(card_id);
                assert(texts(self.cards@) =~= texts(old(self).cards@).push(card_id@));
            },
        }
    }

    /// Takes `card_id` off the column's list. Returns whether it was listed.
    pub fn remove_card(&mut self, card_id: &str) -> (removed: bool)
        ensures
            removed == old(self)@.cards.contains(card_id@),
            final(self)@ == old(self)@.remove_card(card_id@),
            !removed ==> *final(self) == *old(self),
    {
        proof {
            texts(self.cards@).index_of_first_ensures(card_id@);
        }
        match find_text(&self.cards, card_id) {
            Some(pos) => {
                self.cards.remove(pos);
                assert(texts(self.cards@) =~= texts(old(self).cards@).remove(pos as int));
                true
            },
            None => false,
        }
    }

    /// Whether the column lists `card_id`.
    pub fn has_card(&self, card_id: &str) -> (listed: bool)
        ensures
            listed == self@.cards.contains(card_id@),
    {
        proof {
            texts(self.cards@).index_of_first_ensures(card_id@);
        }
        find_text(&self.cards, card_id).is_some()
    }

    /// The number of cards that the column lists.
    pub fn card_count(&self) -> (count: usize)
        ensures
            count == self@.cards.len(),
    {
        self.cards.len()
    }

    /// Exchanges the entries at `i` and `i + 1` of the list.
    fn swap_with_next(&mut self, i: usize)
        requires
            i + 1 < old(self).cards.len(),
        ensures
            final(self)@ == old(self)@.swapped(i as int, i + 1),
    {
        let lower = self.cards.remove(i + 1);
        self.cards.insert(i, lower);
        assert(texts(self.cards@) =~= texts(old(self).cards@).update(
            i as int,
            texts(old(self).cards@)[i + 1],
        ).update(i + 1, texts(old(self).cards@)[i as int]));
    }

    /// Moves `card_id` one place towards the top of the column. Returns `false`, and leaves
    /// the column as it is, where the card is first already or is not listed.
    pub fn move_card_up(&mut self, card_id: &str) -> (moved: bool)
        ensures
            moved == old(self)@.can_move_up(card_id@),
            final(self)@ == old(self)@.move_card_up(card_id@),
            !moved ==> *final(self) == *old(self),
    {
        match find_text(&self.cards, card_id) {
            Some(pos) => {
                if pos > 0 {
                    self.swap_with_next(pos - 1);
                    true
                } else {
                    false
                }
            },
            None => false,
        }
    }

    /// Moves `card_id` one place towards the bottom of the column. Returns `false`, and
    /// leaves the column as it is, where the card is last already or is not listed.
    pub fn move_card_down(&mut self, card_id: &str) -> (moved: bool)
        ensures
            moved == old(self)@.can_move_down(card_id@),
            final(self)@ == old(self)@.move_card_down(card_id@),
            !moved ==> *final(self) == *old(self),
    {
        match find_text(&self.cards, card_id) {
            Some(pos) => {
                if pos + 1 < self.cards.len() {
                    self.swap_with_next(pos);
                    true
                } else {
                    false
                }
            },
            None => false,
        }
    }
}

/// Adding a card twice is the same as adding it once: the second time changes nothing, the
/// number of cards included. In a column that lists no card twice the card is then listed
/// exactly once.
pub proof fn lemma_add_card_idempotent(column: ColumnModel, card_id: Seq<char>)
    ensures
        column.add_card(card_id).add_card(card_id) == column.add_card(card_id),
        column.add_card(card_id).cards.contains(card_id),
        column.add_card(card_id).cards.len() == if column.cards.contains(card_id) {
            column.cards.len()
        } else {
            column.cards.len() + 1
        },
        column.wf() ==> column.add_card(card_id).wf() && column.add_card(
            card_id,
        ).cards.to_multiset().count(card_id) == 1,
{
    let after = column.add_card(card_id);
    if !column.cards.contains(card_id) {
        assert(column.cards.push(card_id)[column.cards.len() as int] == card_id);
    }
    if column.wf() {
        if !column.cards.contains(card_id) {
            assert forall|a: int, b: int|
                0 <= a < after.cards.len() && 0 <= b < after.cards.len() && a
                    != b implies after.cards[a] != after.cards[b] by {
                if a < column.cards.len() {
                    assert(column.cards[a] == after.cards[a]);
                }
                if b < column.cards.len() {
                    assert(column.cards[b] == after.cards[b]);
                }
            }
        }
        after.cards.lemma_multiset_has_no_duplicates();
        after.cards.to_multiset_ensures();
    }
}

/// The first card of a column cannot move up: the attempt fails and the column stays as it is.
pub proof fn lemma_first_card_cannot_move_up(column: ColumnModel)
    requires
        column.cards.len() > 0,
    ensures
        !column.can_move_up(column.cards.first()),
        column.move_card_up(column.cards.first()) == column,
{
    lemma_first_index(column.cards, column.cards.first(), 0);
}

/// The last card of a column that lists no card twice cannot move down: the attempt fails and
/// the column stays as it is.
pub proof fn lemma_last_card_cannot_move_down(column: ColumnModel)
    requires
        column.wf(),
        column.cards.len() > 0,
    ensures
        !column.can_move_down(column.cards.last()),
        column.move_card_down(column.cards.last()) == column,
{
    lemma_first_index(column.cards, column.cards.last(), column.cards.len() - 1);
}

/// A card that is not listed moves neither way.
pub proof fn lemma_absent_card_cannot_move(column: ColumnModel, card_id: Seq<char>)
    requires
        !column.cards.contains(card_id),
    ensures
        !column.can_move_up(card_id),
        !column.can_move_down(card_id),
{
    column.cards.index_of_first_ensures(card_id);
}

/// Moving a card within a column changes the order and nothing else: the column lists the
/// same cards as often as before.
pub proof fn lemma_reorder_keeps_cards(column: ColumnModel, card_id: Seq<char>)
    ensures
        column.move_card_up(card_id).cards.to_multiset() == column.cards.to_multiset(),
        column.move_card_down(card_id).cards.to_multiset() == column.cards.to_multiset(),
        column.wf() ==> column.move_card_up(card_id).wf() && column.move_card_down(card_id).wf(),
{
    column.cards.index_of_first_ensures(card_id);
    if column.can_move_up(card_id) {
        let i = column.cards.index_of_first(card_id).unwrap();
        lemma_swapped_keeps_cards(column, i - 1, i);
    }
    if column.can_move_down(card_id) {
        let i = column.cards.index_of_first(card_id).unwrap();
        lemma_swapped_keeps_cards(column, i, i + 1);
    }
}

/// Exchanging two entries of a column's list leaves it the same cards as often as before.
proof fn lemma_swapped_keeps_cards(column: ColumnModel, i: int, j: int)
    requires
        0 <= i < column.cards.len(),
        0 <= j < column.cards.len(),
    ensures
        column.swapped(i, j).cards.to_multiset() == column.cards.to_multiset(),
        column.wf() ==> column.swapped(i, j).wf(),
{
    let before = column.cards;
    let after = column.swapped(i, j).cards;
    lemma_swap_multiset(before, i, j);
    if column.wf() {
        assert forall|a: int, b: int| 0 <= a < after.len() && 0 <= b < after.len() && a
            != b implies after[a] != after[b] by {
            let a0 = if a == i {
                j
            } else if a == j {
                i
            } else {
                a
            };
            let b0 = if b == i {
                j
            } else if b == j {
                i
            } else {
                b
            };
            assert(after[a] == before[a0]);
            assert(after[b] == before[b0]);
        }
    }
}

/// Exchanging two entries of a list leaves it the same entries as often as before.
proof fn lemma_swap_multiset(s: Seq<Seq<char>>, i: int, j: int)
    requires
        0 <= i < s.len(),
        0 <= j < s.len(),
    ensures
        s.update(i, s[j]).update(j, s[i]).to_multiset() == s.to_multiset(),
{
    let half = s.update(i, s[j]);
    vstd::seq_lib::to_multiset_update(s, i, s[j]);
    vstd::seq_lib::to_multiset_update(half, j, s[i]);
    s.to_multiset_ensures();
    half.to_multiset_ensures();
    assert(half.update(j, s[i]).to_multiset() =~= s.to_multiset());
}

} // verus!
