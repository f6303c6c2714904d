//! A card: one unit of work on the board.

use crate::clock::now;
use crate::clock::Timestamp;
use crate::text::optional_text;
use vstd::prelude::*;

verus! {

/// A task on the board. Cards are made by the board, which gives each its identifier and
/// keeps `column_id` in step with the columns' own lists.
#[derive(Debug, Clone, PartialEq)]
pub struct Card {
    /// Identifier, unique within the board (for instance "PRJ-001").
    pub id: String,
    /// Title.
    pub title: String,
    /// Longer description, if any.
    pub description: Option<String>,
    /// Identifier of the column that holds the card.
    pub column_id: String,
    /// Who works on the card, if anyone.
    pub assignee: Option<String>,
    /// When the card was made.
    pub created_at: Timestamp,
    /// When the card was last changed.
    pub updated_at: Timestamp,
}

/// What a card is, in mathematical terms.
pub struct CardModel {
    pub id: Seq<char>,
    pub title: Seq<char>,
    pub description: Option<Seq<char>>,
    pub column_id: Seq<char>,
    pub assignee: Option<Seq<char>>,
    pub created_at: Timestamp,
    pub updated_at: Timestamp,
}

impl View for Card {
    type V = CardModel;

    open spec fn view(&self) -> CardModel {
        CardModel {
            id: self.id@,
            title: self.title@,
            description: optional_text(self.description),
            column_id: self.column_id@,
            assignee: optional_text(self.assignee),
            created_at: self.created_at,
            updated_at: self.updated_at,
        }
    }
}

impl CardModel {
    /// A card made at `stamp`, without description or assignee.
    pub open spec fn created(
        id: Seq<char>,
        title: Seq<char>,
        column_id: Seq<char>,
        stamp: Timestamp,
    ) -> CardModel {
        CardModel {
            id,
            title,
            description: None,
            column_id,
            assignee: None,
            created_at: stamp,
            updated_at: stamp,
        }
    }

    /// The card in another column, changed at `stamp`.
    pub open spec fn move_to(self, column_id: Seq<char>, stamp: Timestamp) -> CardModel {
        CardModel { column_id, updated_at: stamp, ..self }
    }

    /// The card under another title, changed at `stamp`.
    pub open spec fn set_title(self, title: Seq<char>, stamp: Timestamp) -> CardModel {
        CardModel { title, updated_at: stamp, ..self }
    }

    /// The card with another description, or none, changed at `stamp`.
    pub open spec fn set_description(
        self,
        description: Option<Seq<char>>,
        stamp: Timestamp,
    ) -> CardModel {
        CardModel { description, updated_at: stamp, ..self }
    }

    /// The card with another assignee, or none, changed at `stamp`.
    pub open spec fn set_assignee(self, assignee: Option<Seq<char>>, stamp: Timestamp) -> CardModel {
        CardModel { assignee, updated_at: stamp, ..self }
    }
}

impl Card {
    /// A new card in `column_id`, without description or assignee. Both stamps are one reading
    /// of the clock.
    pub fn new(id: String, title: String, column_id: String) -> (card: Card)
        ensures
            card@ == CardModel::created(id@, title@, column_id@, card.created_at),
    {
        let stamp = now();
        Card {
            id,
            title,
            description: None,
            column_id,
            assignee: None,
            created_at: stamp,
            updated_at: stamp,
        }
    }

    /// Puts the card in another column and stamps the change. The new `updated_at` is a
    /// reading of the clock; everything else is as the model says.
    pub fn move_to(&mut self, column_id: String)
        ensures
            final(self)@ == old(self)@.move_to(column_id@, final(self).updated_at),
    {
        self.column_id = column_id;
        self.updated_at = now();
    }

    /// Gives the card another title and stamps the change. No title is refused here: that an
    /// empty one is not accepted is the business of whoever calls.
    pub fn set_title(&mut self, title: String)
        ensures
            final(self)@ == old(self)@.set_title(title@, final(self).updated_at),
    {
        self.title = title;
        self.updated_at = now();
    }

    /// Gives the card another description, or none, and stamps the change.
    pub fn set_description(&mut self, description: Option<String>)
        ensures
            final(self)@ == old(self)@.set_description(
                optional_text(description),
                final(self).updated_at,
            ),
    {
        self.description = description;
        self.updated_at = now();
    }

    /// Gives the card another assignee, or none, and stamps the change.
    pub fn set_assignee(&mut self, assignee: Option<String>)
        ensures
            final(self)@ == old(self)@.set_assignee(
                optional_text(assignee),
                final(self).updated_at,
            ),
    {
        self.assignee = assignee;
        self.updated_at = now();
    }
}

} // verus!
