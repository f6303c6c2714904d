//! How the prompts show a card in a list to choose from.

use crate::text::push_char;
use vstd::prelude::*;

verus! {

/// The line that stands for a card in a list: `ID: title`, or `ID [column]: title` where the
/// column is to be shown.
pub open spec fn card_option_text(
    card_id: Seq<char>,
    title: Seq<char>,
    column: Option<Seq<char>>,
) -> Seq<char> {
    match column {
        Some(column) => card_id + seq![' ', '['] + column + seq![']', ':', ' '] + title,
        None => card_id + seq![':', ' '] + title,
    }
}

/// Formats a card for a list to choose from.
pub fn format_card_option(card_id: &str, title: &str, column: Option<&str>) -> (line: String)
    ensures
        line@ == card_option_text(
            card_id@,
            title@,
            match column {
                Some(column) => Some(column@),
                None => None,
            },
        ),
{
    let mut line = String::new();
    line.append(card_id);
    match column {
        Some(column) => {
            push_char(&mut line, ' ');
            push_char(&mut line, '[');
            line.append(column);
            push_char(&mut line, ']');
            push_char(&mut line, ':');
            push_char(&mut line, ' ');
            line.append(title);
            assert(line@ =~= card_id@ + seq![' ', '['] + column@ + seq![']', ':', ' '] + title@);
        },
        None => {
            push_char(&mut line, ':');
            push_char(&mut line, ' ');
            line.append(title);
            assert(line@ =~= card_id@ + seq![':', ' '] + title@);
        },
    }
    line
}

/// The place of the first colon of a text; the length of the text where it has none.
pub open spec fn colon_position(text: Seq<char>) -> int
    decreases text.len(),
{
    if text.len() == 0 || text.first() == ':' {
        0
    } else {
        1 + colon_position(text.drop_first())
    }
}

/// What stands before the first colon of a line: the identifier of the card, where the line
/// is one that [`format_card_option`] made without a column.
pub open spec fn chosen_card_text(line: Seq<char>) -> Seq<char> {
    line.take(colon_position(line))
}

/// The first colon of a text lies within it, and no colon lies before it.
pub proof fn lemma_colon_position(text: Seq<char>)
    ensures
        0 <= colon_position(text) <= text.len(),
        colon_position(text) < text.len() ==> text[colon_position(text)] == ':',
        forall|i: int| 0 <= i < colon_position(text) ==> text[i] != ':',
    decreases text.len(),
{
    if text.len() > 0 && text.first() != ':' {
        lemma_colon_position(text.drop_first());
        assert forall|i: int| 0 <= i < colon_position(text) implies text[i] != ':' by {
            if i > 0 {
                assert(text[i] == text.drop_first()[i - 1]);
            }
        }
    }
}

/// The first colon of a text is at `at` when a colon stands there and none before.
proof fn lemma_colon_found(text: Seq<char>, at: int)
    requires
        0 <= at <= text.len(),
        at < text.len() ==> text[at] == ':',
        forall|i: int| 0 <= i < at ==> text[i] != ':',
    ensures
        colon_position(text) == at,
    decreases text.len(),
{
    if text.len() > 0 && text.first() != ':' {
        assert forall|i: int| 0 <= i < at - 1 implies text.drop_first()[i] != ':' by {
            assert(text.drop_first()[i] == text[i + 1]);
        }
        lemma_colon_found(text.drop_first(), at - 1);
    }
}

/// The identifier of the card that a line of a list stands for: what stands before the first
/// colon of the line.
pub fn chosen_card_id(line: &str) -> (card_id: String)
    ensures
        card_id@ == chosen_card_text(line@),
{
    let mut card_id = String::new();
    let mut done = false;
    for c in it: line.chars()
        invariant
            it.seq() == line@,
            !done ==> card_id@ == line@.take(it.index() as int) && forall|i: int|
                0 <= i < it.index() ==> line@[i] != ':',
            done ==> card_id@ == chosen_card_text(line@),
    {
        if !done {
            if c == ':' {
                proof {
                    lemma_colon_found(line@, it.index() as int);
                }
                done = true;
            } else {
                push_char(&mut card_id, c);
                assert(line@.take(it.index() + 1) =~= line@.take(it.index() as int).push(c));
            }
        }
    }
    proof {
        if !done {
            lemma_colon_found(line@, line@.len() as int);
        }
    }
    card_id
}

/// A line made for a card without a column gives the card back when it is chosen, as long as
/// the card's identifier holds no colon.
pub proof fn lemma_chosen_card_is_formatted_card(card_id: Seq<char>, title: Seq<char>)
    requires
        forall|i: int| 0 <= i < card_id.len() ==> card_id[i] != ':',
    ensures
        chosen_card_text(card_option_text(card_id, title, None)) == card_id,
{
    let line = card_option_text(card_id, title, None);
    assert(line[card_id.len() as int] == ':');
    assert forall|i: int| 0 <= i < card_id.len() implies line[i] != ':' by {
        assert(line[i] == card_id[i]);
    }
    lemma_colon_found(line, card_id.len() as int);
    assert(line.take(card_id.len() as int) =~= card_id);
}

} // verus!
