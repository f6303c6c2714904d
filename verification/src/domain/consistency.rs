//! What a consistent board is, and the proof that the board's operations keep it so.

use crate::clock::Timestamp;
use crate::domain::board::BoardModel;
use crate::domain::card_id::card_id_text;
use crate::domain::card_id::lemma_card_id_text_injective;
use crate::domain::column::ColumnModel;
use crate::domain::column_order::stably_sorted;
use crate::domain::effects::lemma_relocate_effect;
use vstd::prelude::*;

verus! {

impl BoardModel {
    /// Whether a card called `card_id` says that it is in the column `column_id`.
    pub open spec fn holds(self, card_id: Seq<char>, column_id: Seq<char>) -> bool {
        exists|i: int|
            0 <= i < self.cards.len() && (#[trigger] self.cards[i]).id == card_id
                && self.cards[i].column_id == column_id
    }

    /// Whether the column at `k` lists `card_id`.
    pub open spec fn lists(self, k: int, card_id: Seq<char>) -> bool {
        self.columns[k].cards.contains(card_id)
    }

    /// A consistent board:
    /// - it has a column, and no two columns share an identifier;
    /// - no two cards share an identifier;
    /// - no column lists a card twice;
    /// - every card's `column_id` names a column of the board;
    /// - a column lists exactly the cards whose `column_id` names it;
    /// - no card bears an identifier that the board has yet to issue.
    pub open spec fn wf(self) -> bool {
        &&& self.columns.len() > 0
        &&& self.column_ids().no_duplicates()
        &&& self.card_ids().no_duplicates()
        &&& forall|k: int| 0 <= k < self.columns.len() ==> (#[trigger] self.columns[k]).wf()
        &&& forall|i: int|
            0 <= i < self.cards.len() ==> self.has_column((#[trigger] self.cards[i]).column_id)
        &&& forall|k: int, card_id: Seq<char>|
            0 <= k < self.columns.len() ==> (#[trigger] self.lists(k, card_id) <==> self.holds(
                card_id,
                self.columns[k].id,
            ))
        &&& forall|n: nat|
            n >= self.next_card_number ==> !self.has_card(
                #[trigger] card_id_text(self.card_id_prefix, n),
            )
    }
}

/// A list without `x`, where it listed nothing twice: it still lists nothing twice, and it
/// lists what it listed before but for `x`.
pub proof fn lemma_remove_value<A>(s: Seq<A>, x: A)
    requires
        s.no_duplicates(),
    ensures
        s.remove_value(x).no_duplicates(),
        forall|y: A| #[trigger] s.remove_value(x).contains(y) <==> s.contains(y) && y != x,
{
    s.index_of_first_ensures(x);
    match s.index_of_first(x) {
        Some(p) => {
            let r = s.remove(p);
            s.remove_ensures(p);
            assert forall|a: int, b: int| 0 <= a < r.len() && 0 <= b < r.len() && a != b implies r[a]
                != r[b] by {
                let a0 = if a < p {
                    a
                } else {
                    a + 1
                };
                let b0 = if b < p {
                    b
                } else {
                    b + 1
                };
                assert(r[a] == s[a0]);
                assert(r[b] == s[b0]);
            }
            assert forall|y: A| #[trigger] r.contains(y) <==> s.contains(y) && y != x by {
                if r.contains(y) {
                    let a = choose|a: int| 0 <= a < r.len() && r[a] == y;
                    let a0 = if a < p {
                        a
                    } else {
                        a + 1
                    };
                    assert(r[a] == s[a0]);
                    assert(s[a0] == y);
                }
                if s.contains(y) && y != x {
                    let a0 = choose|a: int| 0 <= a < s.len() && s[a] == y;
                    let a = if a0 < p {
                        a0
                    } else {
                        a0 - 1
                    };
                    assert(r[a] == s[a0]);
                }
            }
        },
        None => {},
    }
}

/// A list with `x` at its end, where it listed nothing twice and not `x`: it still lists
/// nothing twice.
pub proof fn lemma_push_fresh<A>(s: Seq<A>, x: A)
    requires
        s.no_duplicates(),
        !s.contains(x),
    ensures
        s.push(x).no_duplicates(),
        forall|y: A| #[trigger] s.push(x).contains(y) <==> s.contains(y) || y == x,
{
    let r = s.push(x);
    assert forall|y: A| #[trigger] r.contains(y) <==> s.contains(y) || y == x by {
        if s.contains(y) {
            let a = choose|a: int| 0 <= a < s.len() && s[a] == y;
            assert(r[a] == y);
        }
        if y == x {
            assert(r[s.len() as int] == x);
        }
        if r.contains(y) {
            let a = choose|a: int| 0 <= a < r.len() && r[a] == y;
            if a < s.len() {
                assert(s[a] == y);
            }
        }
    }
}

/// A new board is consistent.
pub proof fn lemma_fresh_is_wf(id: Seq<char>, name: Seq<char>, stamp: Timestamp)
    ensures
        BoardModel::fresh(id, name, stamp).wf(),
        BoardModel::fresh(id, name, stamp).next_card_number == 1,
{
    let board = BoardModel::fresh(id, name, stamp);
    reveal_strlit("todo");
    reveal_strlit("in_progress");
    reveal_strlit("done");
    assert("todo"@[0] == 't');
    assert("in_progress"@[0] == 'i');
    assert("done"@[0] == 'd');
    let ids = board.column_ids();
    assert(ids[0] == "todo"@);
    assert(ids[1] == "in_progress"@);
    assert(ids[2] == "done"@);
    assert(ids.no_duplicates());
    assert(board.card_ids() =~= Seq::empty());
    assert forall|k: int, card_id: Seq<char>| 0 <= k < board.columns.len() implies (
    #[trigger] board.lists(k, card_id) <==> board.holds(card_id, board.columns[k].id)) by {}
}

/// In a consistent board the first column called `column_id` is the only one, and the list of
/// plain facts about it that the proofs below start from.
pub proof fn lemma_column_found(board: BoardModel, column_id: Seq<char>) -> (k: int)
    requires
        board.wf(),
        board.has_column(column_id),
    ensures
        board.column_index(column_id) == Some(k),
        0 <= k < board.columns.len(),
        board.columns[k].id == column_id,
        forall|j: int| 0 <= j < board.columns.len() && j != k ==> board.columns[j].id != column_id,
{
    board.column_ids().index_of_first_ensures(column_id);
    let k = board.column_index(column_id).unwrap();
    assert(board.column_ids()[k] == column_id);
    assert forall|j: int| 0 <= j < board.columns.len() && j != k implies board.columns[j].id
        != column_id by {
        assert(board.column_ids()[j] == board.columns[j].id);
    }
    k
}

/// In a consistent board the first card called `card_id` is the only one.
pub proof fn lemma_card_found(board: BoardModel, card_id: Seq<char>) -> (i: int)
    requires
        board.wf(),
        board.has_card(card_id),
    ensures
        board.card_index(card_id) == Some(i),
        0 <= i < board.cards.len(),
        board.cards[i].id == card_id,
        forall|j: int| 0 <= j < board.cards.len() && j != i ==> board.cards[j].id != card_id,
{
    board.card_ids().index_of_first_ensures(card_id);
    let i = board.card_index(card_id).unwrap();
    assert(board.card_ids()[i] == card_id);
    assert forall|j: int| 0 <= j < board.cards.len() && j != i implies board.cards[j].id
        != card_id by {
        assert(board.card_ids()[j] == board.cards[j].id);
    }
    i
}

/// Making a card in a column that the board has keeps a consistent board consistent.
pub proof fn lemma_create_card_keeps_wf(
    board: BoardModel,
    title: Seq<char>,
    description: Option<Seq<char>>,
    assignee: Option<Seq<char>>,
    column_id: Option<Seq<char>>,
    card_stamp: Timestamp,
    stamp: Timestamp,
)
    requires
        board.wf(),
        board.has_column(BoardModel::target_column(column_id)),
    ensures
        board.create_card(title, description, assignee, column_id, card_stamp, stamp).wf(),
{
    let after = board.create_card(title, description, assignee, column_id, card_stamp, stamp);
    let card = board.new_card(title, description, assignee, column_id, card_stamp);
    let t = lemma_column_found(board, card.column_id);
    let new_id = card.id;
    assert(!board.has_card(new_id));
    assert(!board.lists(t, new_id)) by {
        if board.lists(t, new_id) {
            assert(board.holds(new_id, board.columns[t].id));
            let i = choose|i: int|
                0 <= i < board.cards.len() && (#[trigger] board.cards[i]).id == new_id
                    && board.cards[i].column_id == board.columns[t].id;
            assert(board.card_ids()[i] == new_id);
        }
    }
    lemma_push_fresh(board.columns[t].cards, new_id);
    assert(after.columns == board.columns.update(t, board.columns[t].add_card(new_id)));
    assert(after.column_ids() =~= board.column_ids());
    assert(after.card_ids() =~= board.card_ids().push(new_id));
    lemma_push_fresh(board.card_ids(), new_id);
    assert forall|k: int| 0 <= k < after.columns.len() implies (#[trigger] after.columns[k]).wf() by {
        assert(board.columns[k].wf());
    }
    assert forall|i: int| 0 <= i < after.cards.len() implies after.has_column(
        (#[trigger] after.cards[i]).column_id,
    ) by {
        if i < board.cards.len() {
            assert(board.has_column(board.cards[i].column_id));
        }
    }
    assert forall|k: int, card_id: Seq<char>| 0 <= k < after.columns.len() implies (
    #[trigger] after.lists(k, card_id) <==> after.holds(card_id, after.columns[k].id)) by {
        assert(board.lists(k, card_id) <==> board.holds(card_id, board.columns[k].id));
        let last = board.cards.len() as int;
        if board.holds(card_id, board.columns[k].id) {
            let i = choose|i: int|
                0 <= i < board.cards.len() && (#[trigger] board.cards[i]).id == card_id
                    && board.cards[i].column_id == board.columns[k].id;
            assert(after.cards[i] == board.cards[i]);
        }
        if after.holds(card_id, after.columns[k].id) {
            let i = choose|i: int|
                0 <= i < after.cards.len() && (#[trigger] after.cards[i]).id == card_id
                    && after.cards[i].column_id == after.columns[k].id;
            if i < last {
                assert(board.cards[i] == after.cards[i]);
            }
        }
        if k == t && card_id == new_id {
            assert(after.cards[last] == card);
        }
    }
    assert forall|n: nat| n >= after.next_card_number implies !after.has_card(
        #[trigger] card_id_text(after.card_id_prefix, n),
    ) by {
        let text = card_id_text(board.card_id_prefix, n);
        assert(!board.has_card(text));
        if text == new_id {
            lemma_card_id_text_injective(board.card_id_prefix, n, board.next_card_number);
        }
    }
}

/// Where a consistent board has a card called `card_id` at `i`, a card called `card_id` says
/// that it is in `column_id` exactly when that is what the card at `i` says.
pub proof fn lemma_holds_is_card(board: BoardModel, card_id: Seq<char>, column_id: Seq<char>, i: int)
    requires
        board.wf(),
        0 <= i < board.cards.len(),
        board.cards[i].id == card_id,
    ensures
        board.holds(card_id, column_id) <==> board.cards[i].column_id == column_id,
{
    if board.holds(card_id, column_id) {
        let j = choose|j: int|
            0 <= j < board.cards.len() && (#[trigger] board.cards[j]).id == card_id
                && board.cards[j].column_id == column_id;
        assert(board.card_ids()[j] == card_id);
        assert(board.card_ids()[i] == card_id);
    }
}

/// Taking a card off the list of its column: what is left of a consistent board.
pub proof fn lemma_unlist_own_column(board: BoardModel, i: int) -> (s: int)
    requires
        board.wf(),
        0 <= i < board.cards.len(),
    ensures
        0 <= s < board.columns.len(),
        board.columns[s].id == board.cards[i].column_id,
        board.unlist_card(board.cards[i].column_id, board.cards[i].id).columns
            == board.columns.update(s, board.columns[s].remove_card(board.cards[i].id)),
        board.columns[s].remove_card(board.cards[i].id).wf(),
        forall|y: Seq<char>|
            #[trigger] board.columns[s].remove_card(board.cards[i].id).cards.contains(y)
                <==> board.columns[s].cards.contains(y) && y != board.cards[i].id,
        forall|k: int|
            0 <= k < board.columns.len() && k != s ==> !(#[trigger] board.lists(
                k,
                board.cards[i].id,
            )),
{
    let card = board.cards[i];
    assert(board.has_column(card.column_id));
    let s = lemma_column_found(board, card.column_id);
    assert(board.columns[s].wf());
    lemma_remove_value(board.columns[s].cards, card.id);
    assert forall|k: int| 0 <= k < board.columns.len() && k != s implies !(#[trigger] board.lists(
        k,
        card.id,
    )) by {
        lemma_holds_is_card(board, card.id, board.columns[k].id, i);
    }
    s
}

/// Moving a card keeps a consistent board consistent.
pub proof fn lemma_move_card_keeps_wf(
    board: BoardModel,
    card_id: Seq<char>,
    column_id: Seq<char>,
    card_stamp: Timestamp,
    stamp: Timestamp,
)
    requires
        board.wf(),
    ensures
        board.move_card(card_id, column_id, card_stamp, stamp).wf(),
{
    if board.can_move_card(card_id, column_id) {
        let after = board.move_card(card_id, column_id, card_stamp, stamp);
        let i = lemma_card_found(board, card_id);
        let t = lemma_column_found(board, column_id);
        let s = lemma_unlist_own_column(board, i);
        let unlisted = board.unlist_card(board.cards[i].column_id, card_id);
        assert(unlisted.column_ids() =~= board.column_ids());
        assert(unlisted.column_index(column_id) == Some(t));
        let rest = unlisted.columns[t].cards;
        if t == s {
            assert(rest == board.columns[s].remove_card(card_id).cards);
            assert(!board.columns[s].remove_card(card_id).cards.contains(card_id));
        } else {
            assert(rest == board.columns[t].cards);
            assert(!board.lists(t, card_id));
            assert(board.columns[t].wf());
        }
        lemma_push_fresh(rest, card_id);
        assert(after.columns == unlisted.columns.update(t, unlisted.columns[t].add_card(card_id)));
        assert(after.column_ids() =~= board.column_ids());
        assert(after.card_ids() =~= board.card_ids());
        assert forall|k: int| 0 <= k < after.columns.len() implies (
        #[trigger] after.columns[k]).wf() by {
            assert(board.columns[k].wf());
        }
        assert forall|j: int| 0 <= j < after.cards.len() implies after.has_column(
            (#[trigger] after.cards[j]).column_id,
        ) by {
            if j != i {
                assert(board.has_column(board.cards[j].column_id));
            }
        }
        assert forall|k: int, y: Seq<char>| 0 <= k < after.columns.len() implies (
        #[trigger] after.lists(k, y) <==> after.holds(y, after.columns[k].id)) by {
            assert(board.lists(k, y) <==> board.holds(y, board.columns[k].id));
            if y == card_id {
                assert(after.cards[i].id == card_id);
                if k == t {
                    assert(after.cards[i].column_id == after.columns[k].id);
                } else {
                    if after.holds(y, after.columns[k].id) {
                        let j = choose|j: int|
                            0 <= j < after.cards.len() && (#[trigger] after.cards[j]).id == y
                                && after.cards[j].column_id == after.columns[k].id;
                        if j != i {
                            assert(board.cards[j] == after.cards[j]);
                        }
                    }
                    assert(!board.lists(k, card_id) || k == s);
                }
            } else {
                if board.holds(y, board.columns[k].id) {
                    let j = choose|j: int|
                        0 <= j < board.cards.len() && (#[trigger] board.cards[j]).id == y
                            && board.cards[j].column_id == board.columns[k].id;
                    assert(after.cards[j] == board.cards[j]);
                }
                if after.holds(y, after.columns[k].id) {
                    let j = choose|j: int|
                        0 <= j < after.cards.len() && (#[trigger] after.cards[j]).id == y
                            && after.cards[j].column_id == after.columns[k].id;
                    assert(board.cards[j] == after.cards[j]);
                }
            }
        }
        assert forall|n: nat| n >= after.next_card_number implies !after.has_card(
            #[trigger] card_id_text(after.card_id_prefix, n),
        ) by {
            assert(!board.has_card(card_id_text(board.card_id_prefix, n)));
        }
    }
}

/// Deleting a card keeps a consistent board consistent.
pub proof fn lemma_delete_card_keeps_wf(board: BoardModel, card_id: Seq<char>, stamp: Timestamp)
    requires
        board.wf(),
    ensures
        board.delete_card(card_id, stamp).wf(),
{
    board.card_ids().index_of_first_ensures(card_id);
    if board.has_card(card_id) {
        let after = board.delete_card(card_id, stamp);
        let i = lemma_card_found(board, card_id);
        let s = lemma_unlist_own_column(board, i);
        board.cards.remove_ensures(i);
        assert(after.cards == board.cards.remove(i));
        assert(after.column_ids() =~= board.column_ids());
        assert(after.card_ids() =~= board.card_ids().remove(i));
        assert(after.card_ids() == board.card_ids().remove_value(card_id));
        lemma_remove_value(board.card_ids(), card_id);
        assert forall|k: int| 0 <= k < after.columns.len() implies (
        #[trigger] after.columns[k]).wf() by {
            assert(board.columns[k].wf());
        }
        assert forall|j: int| 0 <= j < after.cards.len() implies after.has_column(
            (#[trigger] after.cards[j]).column_id,
        ) by {
            let j0 = if j < i {
                j
            } else {
                j + 1
            };
            assert(after.cards[j] == board.cards[j0]);
            assert(board.has_column(board.cards[j0].column_id));
        }
        assert forall|k: int, y: Seq<char>| 0 <= k < after.columns.len() implies (
        #[trigger] after.lists(k, y) <==> after.holds(y, after.columns[k].id)) by {
            assert(board.lists(k, y) <==> board.holds(y, board.columns[k].id));
            if after.holds(y, after.columns[k].id) {
                let j = choose|j: int|
                    0 <= j < after.cards.len() && (#[trigger] after.cards[j]).id == y
                        && after.cards[j].column_id == after.columns[k].id;
                let j0 = if j < i {
                    j
                } else {
                    j + 1
                };
                assert(after.cards[j] == board.cards[j0]);
                assert(board.card_ids()[j0] == y);
                assert(y != card_id);
            }
            if board.holds(y, board.columns[k].id) && y != card_id {
                let j0 = choose|j: int|
                    0 <= j < board.cards.len() && (#[trigger] board.cards[j]).id == y
                        && board.cards[j].column_id == board.columns[k].id;
                let j = if j0 < i {
                    j0
                } else {
                    j0 - 1
                };
                assert(after.cards[j] == board.cards[j0]);
            }
        }
        assert forall|n: nat| n >= after.next_card_number implies !after.has_card(
            #[trigger] card_id_text(after.card_id_prefix, n),
        ) by {
            assert(!board.has_card(card_id_text(board.card_id_prefix, n)));
        }
    }
}

/// In a consistent board every card is in exactly one place: exactly one column bears the
/// name that the card gives as its `column_id`, that column lists the card exactly once, and
/// no other column lists it. Returns the position of that column.
pub proof fn lemma_card_in_one_place(board: BoardModel, i: int) -> (k: int)
    requires
        board.wf(),
        0 <= i < board.cards.len(),
    ensures
        0 <= k < board.columns.len(),
        board.columns[k].id == board.cards[i].column_id,
        forall|j: int|
            0 <= j < board.columns.len() && j != k ==> (#[trigger] board.columns[j]).id
                != board.cards[i].column_id,
        board.columns[k].cards.to_multiset().count(board.cards[i].id) == 1,
        forall|j: int|
            0 <= j < board.columns.len() && j != k ==> !(#[trigger] board.columns[j]).cards.contains(
                board.cards[i].id,
            ),
{
    let card = board.cards[i];
    let k = lemma_unlist_own_column(board, i);
    assert forall|j: int| 0 <= j < board.columns.len() && j != k implies (
    #[trigger] board.columns[j]).id != card.column_id by {
        assert(board.column_ids()[j] == board.columns[j].id);
        assert(board.column_ids()[k] == board.columns[k].id);
    }
    assert forall|j: int| 0 <= j < board.columns.len() && j != k implies !(
    #[trigger] board.columns[j]).cards.contains(card.id) by {
        assert(!board.lists(j, card.id));
    }
    assert(board.lists(k, card.id)) by {
        assert(board.holds(card.id, board.columns[k].id));
    }
    assert(board.columns[k].wf());
    board.columns[k].cards.lemma_multiset_has_no_duplicates();
    board.columns[k].cards.to_multiset_ensures();
    k
}

/// One change to a board: a card made, moved or deleted, with the stamps the clock gave.
#[allow(inconsistent_fields)]
pub enum Operation {
    Create {
        title: Seq<char>,
        description: Option<Seq<char>>,
        assignee: Option<Seq<char>>,
        column_id: Option<Seq<char>>,
        card_stamp: Timestamp,
        stamp: Timestamp,
    },
    Move { card_id: Seq<char>, column_id: Seq<char>, card_stamp: Timestamp, stamp: Timestamp },
    Delete { card_id: Seq<char>, stamp: Timestamp },
}

/// How many of `operations` make a card.
pub open spec fn creations(operations: Seq<Operation>) -> nat
    decreases operations.len(),
{
    if operations.len() == 0 {
        0
    } else {
        creations(operations.drop_last()) + if operations.last() is Create {
            1nat
        } else {
            0nat
        }
    }
}

impl BoardModel {
    /// The board after one operation.
    pub open spec fn apply(self, operation: Operation) -> BoardModel {
        match operation {
            Operation::Create { title, description, assignee, column_id, card_stamp, stamp } => {
                self.create_card(title, description, assignee, column_id, card_stamp, stamp)
            },
            Operation::Move { card_id, column_id, card_stamp, stamp } => {
                self.move_card(card_id, column_id, card_stamp, stamp)
            },
            Operation::Delete { card_id, stamp } => self.delete_card(card_id, stamp),
        }
    }

    /// Whether the board has what the operation needs to leave it consistent: a card can only
    /// be made in a column that the board has. Moves and deletions need nothing: where they
    /// cannot be done they change nothing.
    pub open spec fn admits(self, operation: Operation) -> bool {
        match operation {
            Operation::Create { column_id, .. } => self.has_column(
                Self::target_column(column_id),
            ),
            _ => true,
        }
    }

    /// The board after the operations, one after the other.
    pub open spec fn run(self, operations: Seq<Operation>) -> BoardModel
        decreases operations.len(),
    {
        if operations.len() == 0 {
            self
        } else {
            self.run(operations.drop_last()).apply(operations.last())
        }
    }

    /// Whether each of the operations finds, at its turn, what it needs.
    pub open spec fn admits_all(self, operations: Seq<Operation>) -> bool
        decreases operations.len(),
    {
        operations.len() == 0 || (self.admits_all(operations.drop_last()) && self.run(
            operations.drop_last(),
        ).admits(operations.last()))
    }
}

/// Whatever cards are made, moved and deleted on a consistent board, in whatever order, the
/// board stays consistent, as long as each card is made in a column that the board has.
pub proof fn lemma_operations_keep_wf(board: BoardModel, operations: Seq<Operation>)
    requires
        board.wf(),
        board.admits_all(operations),
    ensures
        board.run(operations).wf(),
    decreases operations.len(),
{
    if operations.len() > 0 {
        lemma_operations_keep_wf(board, operations.drop_last());
        let before = board.run(operations.drop_last());
        match operations.last() {
            Operation::Create { title, description, assignee, column_id, card_stamp, stamp } => {
                lemma_create_card_keeps_wf(
                    before,
                    title,
                    description,
                    assignee,
                    column_id,
                    card_stamp,
                    stamp,
                );
            },
            Operation::Move { card_id, column_id, card_stamp, stamp } => {
                lemma_move_card_keeps_wf(before, card_id, column_id, card_stamp, stamp);
            },
            Operation::Delete { card_id, stamp } => {
                lemma_delete_card_keeps_wf(before, card_id, stamp);
            },
        }
    }
}

/// The card number only grows, and by one for each card made: moves and deletions leave it
/// alone, so a number once issued is not issued again.
pub proof fn lemma_operations_count_cards(board: BoardModel, operations: Seq<Operation>)
    ensures
        board.run(operations).next_card_number == board.next_card_number + creations(operations),
        board.run(operations).card_id_prefix == board.card_id_prefix,
    decreases operations.len(),
{
    if operations.len() > 0 {
        lemma_operations_count_cards(board, operations.drop_last());
    }
}

/// After any operations on a new board the next card number is one more than the number of
/// cards made, however many of them were deleted since.
pub proof fn lemma_fresh_board_counts_cards(
    id: Seq<char>,
    name: Seq<char>,
    stamp: Timestamp,
    operations: Seq<Operation>,
)
    ensures
        BoardModel::fresh(id, name, stamp).run(operations).next_card_number == creations(
            operations,
        ) + 1,
{
    lemma_operations_count_cards(BoardModel::fresh(id, name, stamp), operations);
}

/// Issuing a card identifier keeps a consistent board consistent.
pub proof fn lemma_generate_card_id_keeps_wf(board: BoardModel, stamp: Timestamp)
    requires
        board.wf(),
    ensures
        board.generate_card_id(stamp).wf(),
        !board.has_card(board.next_card_id()),
{
    let after = board.generate_card_id(stamp);
    assert(!board.has_card(card_id_text(board.card_id_prefix, board.next_card_number)));
    assert forall|k: int, card_id: Seq<char>| 0 <= k < after.columns.len() implies (
    #[trigger] after.lists(k, card_id) <==> after.holds(card_id, after.columns[k].id)) by {
        assert(board.lists(k, card_id) <==> board.holds(card_id, board.columns[k].id));
    }
    assert forall|n: nat| n >= after.next_card_number implies !after.has_card(
        #[trigger] card_id_text(after.card_id_prefix, n),
    ) by {
        assert(!board.has_card(card_id_text(board.card_id_prefix, n)));
    }
}

/// Two lists that hold the same entries as often have the same members.
proof fn lemma_same_members<A>(a: Seq<A>, b: Seq<A>, x: A)
    requires
        a.to_multiset() == b.to_multiset(),
        a.contains(x),
    ensures
        b.contains(x),
        a.len() == b.len(),
{
    a.to_multiset_ensures();
    b.to_multiset_ensures();
    assert(a.to_multiset().count(x) > 0);
    assert(b.to_multiset().count(x) > 0);
}

/// Adding a column under a name that no column bears yet keeps a consistent board consistent.
/// `after` is any board that `add_column` can leave: the columns of `board` and the new one,
/// sorted, and nothing else changed but the stamp.
pub proof fn lemma_add_column_keeps_wf(
    board: BoardModel,
    id: Seq<char>,
    name: Seq<char>,
    order: u32,
    after: BoardModel,
)
    requires
        board.wf(),
        !board.has_column(id),
        stably_sorted(after.columns, board.columns.push(ColumnModel::empty(id, name, order))),
        after == (BoardModel { columns: after.columns, updated_at: after.updated_at, ..board }),
    ensures
        after.wf(),
{
    let added = ColumnModel::empty(id, name, order);
    let from = board.columns.push(added);
    let sorted = after.columns;
    from.to_multiset_ensures();
    sorted.to_multiset_ensures();
    assert forall|a: int, b: int| 0 <= a < from.len() && 0 <= b < from.len() && a
        != b implies from[a].id != from[b].id by {
        if a < board.columns.len() {
            assert(board.column_ids()[a] == from[a].id);
        }
        if b < board.columns.len() {
            assert(board.column_ids()[b] == from[b].id);
        }
    }
    assert(from.no_duplicates());
    from.lemma_multiset_has_no_duplicates();
    sorted.lemma_multiset_has_no_duplicates_conv();
    assert forall|a: int, b: int|
        0 <= a < after.column_ids().len() && 0 <= b < after.column_ids().len() && a
            != b implies after.column_ids()[a] != after.column_ids()[b] by {
        assert(sorted.contains(sorted[a]));
        assert(sorted.contains(sorted[b]));
        lemma_same_members(sorted, from, sorted[a]);
        lemma_same_members(sorted, from, sorted[b]);
        let a0 = choose|m: int| 0 <= m < from.len() && from[m] == sorted[a];
        let b0 = choose|m: int| 0 <= m < from.len() && from[m] == sorted[b];
        assert(sorted[a] != sorted[b]);
    }
    assert(after.card_ids() =~= board.card_ids());
    assert forall|k: int| 0 <= k < sorted.len() implies (#[trigger] sorted[k]).wf() && (
    forall|card_id: Seq<char>| #[trigger]
        after.lists(k, card_id) <==> after.holds(card_id, sorted[k].id)) by {
        assert(sorted.contains(sorted[k]));
        lemma_same_members(sorted, from, sorted[k]);
        let m = choose|m: int| 0 <= m < from.len() && from[m] == sorted[k];
        if m < board.columns.len() {
            assert(from[m] == board.columns[m]);
            assert(board.columns[m].wf());
            assert forall|card_id: Seq<char>| #[trigger]
                after.lists(k, card_id) <==> after.holds(card_id, sorted[k].id) by {
                assert(board.lists(m, card_id) <==> board.holds(card_id, board.columns[m].id));
                assert(board.holds(card_id, board.columns[m].id) == after.holds(
                    card_id,
                    sorted[k].id,
                ));
            }
        } else {
            assert forall|card_id: Seq<char>| #[trigger]
                after.lists(k, card_id) <==> after.holds(card_id, sorted[k].id) by {
                if after.holds(card_id, id) {
                    let i = choose|i: int|
                        0 <= i < after.cards.len() && (#[trigger] after.cards[i]).id == card_id
                            && after.cards[i].column_id == id;
                    assert(board.has_column(board.cards[i].column_id));
                }
            }
        }
    }
    assert forall|i: int| 0 <= i < after.cards.len() implies after.has_column(
        (#[trigger] after.cards[i]).column_id,
    ) by {
        assert(board.has_column(board.cards[i].column_id));
        let m = choose|m: int|
            0 <= m < board.column_ids().len() && board.column_ids()[m]
                == board.cards[i].column_id;
        assert(from[m] == board.columns[m]);
        assert(from.contains(from[m]));
        lemma_same_members(from, sorted, from[m]);
        let k = choose|k: int| 0 <= k < sorted.len() && sorted[k] == from[m];
        assert(after.column_ids()[k] == board.cards[i].column_id);
    }
    assert forall|n: nat| n >= after.next_card_number implies !after.has_card(
        #[trigger] card_id_text(after.card_id_prefix, n),
    ) by {
        assert(!board.has_card(card_id_text(board.card_id_prefix, n)));
    }
}

/// Removing a column keeps a consistent board consistent: its cards have all moved to
/// another column before it goes.
pub proof fn lemma_remove_column_keeps_wf(
    board: BoardModel,
    column_id: Seq<char>,
    stamps: Seq<(Timestamp, Timestamp)>,
    stamp: Timestamp,
)
    requires
        board.wf(),
    ensures
        board.remove_column(column_id, stamps, stamp).wf(),
{
    if board.can_remove_column(column_id) {
        let pos = lemma_column_found(board, column_id);
        let other = board.other_column_index(column_id).unwrap();
        assert(board.is_other_column(column_id, other));
        let target = board.columns[other].id;
        assert(board.column_ids()[other] == target);
        let ids = board.columns[pos].cards;
        assert(ids.take(ids.len() as int) =~= ids);
        lemma_relocate_effect(board, pos, ids.len() as int, other, stamps);
        let moved = board.relocate(ids, target, stamps);
        let after = board.remove_column(column_id, stamps, stamp);
        assert(moved.columns[pos].cards.len() == 0);
        moved.columns.remove_ensures(pos);
        assert(after.card_ids() =~= moved.card_ids());
        assert(after.column_ids() =~= moved.column_ids().remove(pos));
        moved.column_ids().remove_ensures(pos);
        assert forall|a: int, b: int|
            0 <= a < after.column_ids().len() && 0 <= b < after.column_ids().len() && a
                != b implies after.column_ids()[a] != after.column_ids()[b] by {
            let a0 = if a < pos {
                a
            } else {
                a + 1
            };
            let b0 = if b < pos {
                b
            } else {
                b + 1
            };
            assert(after.column_ids()[a] == moved.column_ids()[a0]);
            assert(after.column_ids()[b] == moved.column_ids()[b0]);
        }
        assert forall|k: int| 0 <= k < after.columns.len() implies (
        #[trigger] after.columns[k]).wf() by {
            let k0 = if k < pos {
                k
            } else {
                k + 1
            };
            assert(after.columns[k] == moved.columns[k0]);
            assert(moved.columns[k0].wf());
        }
        assert forall|i: int| 0 <= i < after.cards.len() implies after.has_column(
            (#[trigger] after.cards[i]).column_id,
        ) by {
            assert(moved.has_column(moved.cards[i].column_id));
            let k0 = lemma_column_found(moved, moved.cards[i].column_id);
            if k0 == pos {
                assert(moved.holds(moved.cards[i].id, moved.columns[pos].id));
                assert(moved.lists(pos, moved.cards[i].id));
            }
            let k = if k0 < pos {
                k0
            } else {
                k0 - 1
            };
            assert(after.column_ids()[k] == moved.column_ids()[k0]);
        }
        assert forall|k: int, y: Seq<char>| 0 <= k < after.columns.len() implies (
        #[trigger] after.lists(k, y) <==> after.holds(y, after.columns[k].id)) by {
            let k0 = if k < pos {
                k
            } else {
                k + 1
            };
            assert(after.columns[k] == moved.columns[k0]);
            assert(moved.lists(k0, y) <==> moved.holds(y, moved.columns[k0].id));
            assert(moved.holds(y, moved.columns[k0].id) == after.holds(y, after.columns[k].id));
        }
        assert forall|n: nat| n >= after.next_card_number implies !after.has_card(
            #[trigger] card_id_text(after.card_id_prefix, n),
        ) by {
            assert(!moved.has_card(card_id_text(moved.card_id_prefix, n)));
        }
    }
}

} // verus!
