//! What moving a card and removing a column come to on a consistent board, said directly:
//! which lists gain and lose which cards, and which cards change their column.

use crate::clock::Timestamp;
use crate::domain::board::BoardModel;
use crate::domain::card::CardModel;
use crate::domain::column::ColumnModel;
use crate::domain::consistency::lemma_card_found;
use crate::domain::consistency::lemma_column_found;
use crate::domain::consistency::lemma_move_card_keeps_wf;
use crate::domain::consistency::lemma_unlist_own_column;
use crate::text::lemma_first_index;
use vstd::prelude::*;

verus! {

impl BoardModel {
    /// The list of the column at `k` after `card_id` has gone from the column at `source` to
    /// the end of the column at `target`.
    pub open spec fn list_after_move(
        self,
        k: int,
        card_id: Seq<char>,
        source: int,
        target: int,
    ) -> Seq<Seq<char>> {
        let rest = if k == source {
            self.columns[k].cards.remove_value(card_id)
        } else {
            self.columns[k].cards
        };
        if k == target {
            rest.push(card_id)
        } else {
            rest
        }
    }

    /// Whether the card at `i` is one of those that the column at `pos` lists.
    pub open spec fn is_listed_in(self, i: int, pos: int) -> bool {
        self.columns[pos].cards.contains(self.cards[i].id)
    }
}

/// The card with another column and, if it changed column, whatever stamp it then got.
pub open spec fn same_card_in(before: CardModel, column_id: Seq<char>, after: CardModel) -> bool {
    after == CardModel { column_id, updated_at: after.updated_at, ..before }
}

/// On a consistent board a move that can be done does this: the card says that it is in the
/// new column; it is gone from the list of the column it was in and stands last in the list
/// of the new one (last in its own column, if that is where it moves); no other list and no
/// other card changes. Returns the places of the card, of its old column and of the new one.
pub proof fn lemma_move_card_effect(
    board: BoardModel,
    card_id: Seq<char>,
    column_id: Seq<char>,
    card_stamp: Timestamp,
    stamp: Timestamp,
) -> (places: (int, int, int))
    requires
        board.wf(),
        board.can_move_card(card_id, column_id),
    ensures
        ({
            let (i, source, target) = places;
            let after = board.move_card(card_id, column_id, card_stamp, stamp);
            &&& board.card_index(card_id) == Some(i)
            &&& 0 <= i < board.cards.len()
            &&& board.cards[i].id == card_id
            &&& board.column_index(board.cards[i].column_id) == Some(source)
            &&& board.column_index(column_id) == Some(target)
            &&& 0 <= source < board.columns.len()
            &&& 0 <= target < board.columns.len()
            &&& after.cards == board.cards.update(i, board.cards[i].move_to(column_id, card_stamp))
            &&& after.columns.len() == board.columns.len()
            &&& forall|k: int|
                0 <= k < board.columns.len() ==> #[trigger] after.columns[k] == (ColumnModel {
                    cards: board.list_after_move(k, card_id, source, target),
                    ..board.columns[k]
                })
            &&& after.columns[target].cards.last() == card_id
            &&& forall|k: int|
                0 <= k < board.columns.len() && k != target ==> !(
                #[trigger] after.columns[k]).cards.contains(card_id)
        }),
{
    let after = board.move_card(card_id, column_id, card_stamp, stamp);
    let i = lemma_card_found(board, card_id);
    let t = lemma_column_found(board, column_id);
    let s = lemma_unlist_own_column(board, i);
    assert(board.column_ids()[s] == board.cards[i].column_id);
    let found = lemma_column_found(board, board.cards[i].column_id);
    assert(found == s);
    let unlisted = board.unlist_card(board.cards[i].column_id, card_id);
    assert(unlisted.column_ids() =~= board.column_ids());
    assert(unlisted.column_index(column_id) == Some(t));
    let rest = unlisted.columns[t].cards;
    if t == s {
        assert(rest == board.columns[s].remove_card(card_id).cards);
        assert(!board.columns[s].remove_card(card_id).cards.contains(card_id));
    } else {
        assert(rest == board.columns[t].cards);
        assert(!board.lists(t, card_id));
    }
    assert(after.columns == unlisted.columns.update(t, unlisted.columns[t].add_card(card_id)));
    assert forall|k: int| 0 <= k < board.columns.len() implies #[trigger] after.columns[k]
        == (ColumnModel {
        cards: board.list_after_move(k, card_id, s, t),
        ..board.columns[k]
    }) by {}
    assert forall|k: int| 0 <= k < board.columns.len() && k != t implies !(
    #[trigger] after.columns[k]).cards.contains(card_id) by {
        if k == s {
            assert(after.columns[k].cards == board.columns[s].remove_card(card_id).cards);
        } else {
            assert(!board.lists(k, card_id));
        }
    }
    (i, s, t)
}

/// What the board looks like while the cards of the column at `pos` move to the column at
/// `target`, after the first `count` of them have moved.
pub open spec fn relocated(
    board: BoardModel,
    pos: int,
    count: int,
    target: int,
    after: BoardModel,
) -> bool {
    let moved = board.columns[pos].cards.take(count);
    &&& after.wf()
    &&& after.columns.len() == board.columns.len()
    &&& after.cards.len() == board.cards.len()
    &&& forall|k: int|
        0 <= k < board.columns.len() ==> #[trigger] after.columns[k] == (ColumnModel {
            cards: if k == pos {
                board.columns[pos].cards.skip(count)
            } else if k == target {
                board.columns[target].cards + moved
            } else {
                board.columns[k].cards
            },
            ..board.columns[k]
        })
    &&& forall|i: int|
        0 <= i < board.cards.len() ==> same_card_in(
            board.cards[i],
            if moved.contains(board.cards[i].id) {
                board.columns[target].id
            } else {
                board.cards[i].column_id
            },
            #[trigger] after.cards[i],
        )
    &&& forall|i: int|
        0 <= i < board.cards.len() && !moved.contains(board.cards[i].id)
            ==> #[trigger] after.cards[i] == board.cards[i]
}

/// While the cards of a column of a consistent board move to another column one after the
/// other, the board is as [`relocated`] says.
pub proof fn lemma_relocate_effect(
    board: BoardModel,
    pos: int,
    count: int,
    target: int,
    stamps: Seq<(Timestamp, Timestamp)>,
)
    requires
        board.wf(),
        0 <= pos < board.columns.len(),
        0 <= target < board.columns.len(),
        pos != target,
        0 <= count <= board.columns[pos].cards.len(),
    ensures
        relocated(
            board,
            pos,
            count,
            target,
            board.relocate(board.columns[pos].cards.take(count), board.columns[target].id, stamps),
        ),
    decreases count,
{
    let ids = board.columns[pos].cards;
    let target_id = board.columns[target].id;
    assert(board.column_ids()[pos] == board.columns[pos].id);
    assert(board.column_ids()[target] == target_id);
    if count == 0 {
        assert(ids.take(0) =~= Seq::empty());
        assert(ids.skip(0) =~= ids);
        assert(board.columns[target].cards + ids.take(0) =~= board.columns[target].cards);
        assert forall|i: int| 0 <= i < board.cards.len() implies !ids.take(0).contains(
            #[trigger] board.cards[i].id,
        ) by {}
    } else {
        let n = count - 1;
        assert(ids.take(count).drop_last() =~= ids.take(n));
        assert(ids.take(count).last() == ids[n]);
        assert(ids.take(count) =~= ids.take(n).push(ids[n]));
        lemma_relocate_effect(board, pos, n, target, stamps.drop_last());
        let mid = board.relocate(ids.take(n), target_id, stamps.drop_last());
        let card_id = ids[n];
        let after = mid.move_card(card_id, target_id, stamps.last().0, stamps.last().1);
        assert(after == board.relocate(ids.take(count), target_id, stamps));
        assert(mid.column_ids() =~= board.column_ids()) by {
            assert forall|k: int| 0 <= k < board.columns.len() implies mid.column_ids()[k]
                == board.column_ids()[k] by {
                assert(mid.columns[k].id == board.columns[k].id);
            }
        }
        assert(mid.columns[pos].cards[0] == card_id);
        assert(mid.lists(pos, card_id));
        assert(mid.holds(card_id, mid.columns[pos].id));
        assert(mid.has_card(card_id)) by {
            let j = choose|j: int|
                0 <= j < mid.cards.len() && (#[trigger] mid.cards[j]).id == card_id
                    && mid.cards[j].column_id == mid.columns[pos].id;
            assert(mid.card_ids()[j] == card_id);
        }
        assert(mid.has_column(target_id)) by {
            assert(mid.column_ids()[target] == target_id);
        }
        let (i, s, t) = lemma_move_card_effect(
            mid,
            card_id,
            target_id,
            stamps.last().0,
            stamps.last().1,
        );
        lemma_move_card_keeps_wf(mid, card_id, target_id, stamps.last().0, stamps.last().1);
        assert(t == target) by {
            let found = lemma_column_found(mid, target_id);
        }
        assert(s == pos) by {
            crate::domain::consistency::lemma_holds_is_card(mid, card_id, mid.columns[pos].id, i);
            let found = lemma_column_found(mid, mid.columns[pos].id);
            assert(mid.column_ids()[pos] == mid.columns[pos].id);
        }
        lemma_first_index(mid.columns[pos].cards, card_id, 0);
        assert(mid.columns[pos].cards.remove_value(card_id) =~= ids.skip(count)) by {
            assert(mid.columns[pos].cards.remove_value(card_id) == mid.columns[pos].cards.remove(
                0,
            ));
        }
        assert((board.columns[target].cards + ids.take(n)).push(card_id)
            =~= board.columns[target].cards + ids.take(count));
        assert forall|k: int| 0 <= k < board.columns.len() implies #[trigger] after.columns[k]
            == (ColumnModel {
            cards: if k == pos {
                board.columns[pos].cards.skip(count)
            } else if k == target {
                board.columns[target].cards + ids.take(count)
            } else {
                board.columns[k].cards
            },
            ..board.columns[k]
        }) by {
            assert(after.columns[k] == (ColumnModel {
                cards: mid.list_after_move(k, card_id, s, t),
                ..mid.columns[k]
            }));
        }
        assert(board.card_ids()[i] == card_id) by {
            assert(same_card_in(
                board.cards[i],
                if ids.take(n).contains(board.cards[i].id) {
                    target_id
                } else {
                    board.cards[i].column_id
                },
                mid.cards[i],
            ));
        }
        assert forall|j: int| 0 <= j < board.cards.len() implies same_card_in(
            board.cards[j],
            if ids.take(count).contains(board.cards[j].id) {
                target_id
            } else {
                board.cards[j].column_id
            },
            #[trigger] after.cards[j],
        ) by {
            assert(same_card_in(
                board.cards[j],
                if ids.take(n).contains(board.cards[j].id) {
                    target_id
                } else {
                    board.cards[j].column_id
                },
                mid.cards[j],
            ));
            lemma_take_contains(ids, n, board.cards[j].id);
            if j != i {
                assert(board.card_ids()[j] == board.cards[j].id);
                assert(board.cards[j].id != card_id);
            }
        }
        assert forall|j: int|
            0 <= j < board.cards.len() && !ids.take(count).contains(
                board.cards[j].id,
            ) implies #[trigger] after.cards[j] == board.cards[j] by {
            lemma_take_contains(ids, n, board.cards[j].id);
            assert(mid.cards[j] == board.cards[j]);
        }
    }
}

/// One more entry of a list: it holds what the shorter part held, and the entry.
proof fn lemma_take_contains(ids: Seq<Seq<char>>, n: int, x: Seq<char>)
    requires
        0 <= n < ids.len(),
    ensures
        ids.take(n + 1).contains(x) <==> ids.take(n).contains(x) || x == ids[n],
{
    let shorter = ids.take(n);
    let longer = ids.take(n + 1);
    assert(longer =~= shorter.push(ids[n]));
    if shorter.contains(x) {
        let a = choose|a: int| 0 <= a < shorter.len() && shorter[a] == x;
        assert(longer[a] == x);
    }
    if x == ids[n] {
        assert(longer[n] == x);
    }
    if longer.contains(x) {
        let a = choose|a: int| 0 <= a < longer.len() && longer[a] == x;
        if a < n {
            assert(shorter[a] == x);
        }
    }
}

/// On a consistent board the removal of a column that can be removed does this: the cards
/// that the column listed stand, in the order of its list, at the end of the list of the
/// first other column, and say that they are in that column; the column is gone; no other
/// list and no other card changes. Returns the places of the column and of the column that
/// took its cards.
pub proof fn lemma_remove_column_effect(
    board: BoardModel,
    column_id: Seq<char>,
    stamps: Seq<(Timestamp, Timestamp)>,
    stamp: Timestamp,
) -> (places: (int, int))
    requires
        board.wf(),
        board.can_remove_column(column_id),
    ensures
        ({
            let (pos, target) = places;
            let after = board.remove_column(column_id, stamps, stamp);
            let kept = |k: int| if k < pos {
                k
            } else {
                k + 1
            };
            &&& board.column_index(column_id) == Some(pos)
            &&& board.other_column_index(column_id) == Some(target)
            &&& 0 <= pos < board.columns.len()
            &&& 0 <= target < board.columns.len()
            &&& pos != target
            &&& after.columns.len() == board.columns.len() - 1
            &&& after.cards.len() == board.cards.len()
            &&& forall|k: int|
                0 <= k < after.columns.len() ==> #[trigger] after.columns[k] == (ColumnModel {
                    cards: if kept(k) == target {
                        board.columns[target].cards + board.columns[pos].cards
                    } else {
                        board.columns[kept(k)].cards
                    },
                    ..board.columns[kept(k)]
                })
            &&& forall|i: int|
                0 <= i < board.cards.len() ==> same_card_in(
                    board.cards[i],
                    if board.cards[i].column_id == column_id {
                        board.columns[target].id
                    } else {
                        board.cards[i].column_id
                    },
                    #[trigger] after.cards[i],
                )
            &&& forall|i: int|
                0 <= i < board.cards.len() && board.cards[i].column_id != column_id
                    ==> #[trigger] after.cards[i] == board.cards[i]
        }),
{
    let pos = lemma_column_found(board, column_id);
    let target = board.other_column_index(column_id).unwrap();
    assert(board.is_other_column(column_id, target));
    let ids = board.columns[pos].cards;
    assert(ids.take(ids.len() as int) =~= ids);
    lemma_relocate_effect(board, pos, ids.len() as int, target, stamps);
    let moved = board.relocate(ids, board.columns[target].id, stamps);
    let after = board.remove_column(column_id, stamps, stamp);
    moved.columns.remove_ensures(pos);
    assert forall|i: int| 0 <= i < board.cards.len() implies (ids.contains(
        #[trigger] board.cards[i].id,
    ) <==> board.cards[i].column_id == column_id) by {
        assert(board.lists(pos, board.cards[i].id) <==> board.holds(
            board.cards[i].id,
            board.columns[pos].id,
        ));
        crate::domain::consistency::lemma_holds_is_card(
            board,
            board.cards[i].id,
            board.columns[pos].id,
            i,
        );
    }
    assert forall|k: int| 0 <= k < after.columns.len() implies #[trigger] after.columns[k] == (
    ColumnModel {
        cards: if (if k < pos {
            k
        } else {
            k + 1
        }) == target {
            board.columns[target].cards + board.columns[pos].cards
        } else {
            board.columns[if k < pos {
                k
            } else {
                k + 1
            }].cards
        },
        ..board.columns[if k < pos {
            k
        } else {
            k + 1
        }]
    }) by {
        let k0 = if k < pos {
            k
        } else {
            k + 1
        };
        assert(after.columns[k] == moved.columns[k0]);
    }
    (pos, target)
}

} // verus!
