//! The view state of the terminal interface: one value says which screen is up and what is
//! selected on it, so that no two screens can be up at once.

use crate::text::blank;
use crate::text::is_blank;
use vstd::prelude::*;
use vstd::view::View as _;

verus! {

/// Which screen is up, and what it shows.
#[derive(Debug, PartialEq, Eq)]
pub enum View {
    /// The board, with a column in focus and possibly a card highlighted or selected.
    Board {
        /// Position of the column in focus.
        selected_column: usize,
        /// What is selected in it.
        selection: Selection,
    },
    /// The details of one card.
    CardDetail { card_id: String },
    /// The form that makes or edits a card.
    CardForm { mode: FormMode },
    /// The dialogue that moves a card to another column.
    MoveCard {
        card_id: String,
        /// Position of the column the card would go to; the card stays where it is until
        /// the move is confirmed.
        target_column: usize,
    },
    /// The question whether to delete a card.
    ConfirmDelete { card_id: String },
    /// The help overlay, over the view that was up when help was asked for.
    Help { previous: Box<View> },
}

/// What is selected on the board.
#[derive(Debug, Clone, PartialEq, Eq)]
pub enum Selection {
    /// No card: the columns are being browsed.
    Nothing,
    /// A card is under the cursor, by its place in its column, but not chosen yet.
    Highlighted { column: usize, card_index: usize },
    /// A card is chosen, by its identifier: the choice stays with the card when the lists
    /// change.
    Selected { card_id: String },
}

/// What the card form is for.
#[derive(Debug, Clone, PartialEq, Eq)]
pub enum FormMode {
    /// A new card, to go to this column.
    Create { column_id: String },
    /// Changes to this card.
    Edit { card_id: String },
}

/// The fields of the card form.
#[derive(Debug, Clone, Copy, PartialEq, Eq)]
pub enum FormField {
    Title,
    Description,
    Assignee,
}

/// Whether keys move the cursor or are typed into a field.
#[derive(Debug, Clone, Copy, PartialEq, Eq)]
pub enum InputMode {
    /// Keys move between fields.
    Normal,
    /// Keys are typed into the field in focus.
    Editing,
}

/// What has been typed into the card form so far.
#[derive(Debug, Clone)]
pub struct CardFormData {
    pub title: String,
    pub description: String,
    pub assignee: String,
    pub current_field: FormField,
    pub input_mode: InputMode,
}

/// A selection, in mathematical terms.
pub enum SelectionModel {
    Nothing,
    Highlighted { column: usize, card_index: usize },
    Selected { card_id: Seq<char> },
}

/// A form mode, in mathematical terms.
pub enum FormModeModel {
    Create { column_id: Seq<char> },
    Edit { card_id: Seq<char> },
}

/// A view, in mathematical terms.
pub enum ViewModel {
    Board { selected_column: usize, selection: SelectionModel },
    CardDetail { card_id: Seq<char> },
    CardForm { mode: FormModeModel },
    MoveCard { card_id: Seq<char>, target_column: usize },
    ConfirmDelete { card_id: Seq<char> },
    Help { previous: Box<ViewModel> },
}

/// The contents of the card form, in mathematical terms.
pub struct FormModel {
    pub title: Seq<char>,
    pub description: Seq<char>,
    pub assignee: Seq<char>,
    pub current_field: FormField,
    pub input_mode: InputMode,
}

impl vstd::view::View for Selection {
    type V = SelectionModel;

    open spec fn view(&self) -> SelectionModel {
        match *self {
            Selection::Nothing => SelectionModel::Nothing,
            Selection::Highlighted { column, card_index } => SelectionModel::Highlighted {
                column,
                card_index,
            },
            Selection::Selected { card_id } => SelectionModel::Selected { card_id: card_id@ },
        }
    }
}

impl vstd::view::View for FormMode {
    type V = FormModeModel;

    open spec fn view(&self) -> FormModeModel {
        match *self {
            FormMode::Create { column_id } => FormModeModel::Create { column_id: column_id@ },
            FormMode::Edit { card_id } => FormModeModel::Edit { card_id: card_id@ },
        }
    }
}

/// The model of a view.
pub open spec fn view_model(view: View) -> ViewModel
    decreases view,
{
    match view {
        View::Board { selected_column, selection } => ViewModel::Board {
            selected_column,
            selection: selection@,
        },
        View::CardDetail { card_id } => ViewModel::CardDetail { card_id: card_id@ },
        View::CardForm { mode } => ViewModel::CardForm { mode: mode@ },
        View::MoveCard { card_id, target_column } => ViewModel::MoveCard {
            card_id: card_id@,
            target_column,
        },
        View::ConfirmDelete { card_id } => ViewModel::ConfirmDelete { card_id: card_id@ },
        View::Help { previous } => ViewModel::Help { previous: Box::new(view_model(*previous)) },
    }
}

impl vstd::view::View for View {
    type V = ViewModel;

    open spec fn view(&self) -> ViewModel {
        view_model(*self)
    }
}

impl vstd::view::View for CardFormData {
    type V = FormModel;

    open spec fn view(&self) -> FormModel {
        FormModel {
            title: self.title@,
            description: self.description@,
            assignee: self.assignee@,
            current_field: self.current_field,
            input_mode: self.input_mode,
        }
    }
}

impl ViewModel {
    /// The view that opens on start: the board, first column, nothing selected.
    pub open spec fn initial() -> ViewModel {
        ViewModel::Board { selected_column: 0, selection: SelectionModel::Nothing }
    }

    /// The card that the view is about, if it is about one: the card selected on the board,
    /// or the card of the detail, move or delete screen.
    pub open spec fn selected_card_id(self) -> Option<Seq<char>> {
        match self {
            ViewModel::Board { selection: SelectionModel::Selected { card_id }, .. } => Some(
                card_id,
            ),
            ViewModel::CardDetail { card_id } => Some(card_id),
            ViewModel::MoveCard { card_id, .. } => Some(card_id),
            ViewModel::ConfirmDelete { card_id } => Some(card_id),
            _ => None,
        }
    }

    /// The column in focus on the board; the first column on every other screen.
    pub open spec fn selected_column(self) -> usize {
        match self {
            ViewModel::Board { selected_column, .. } => selected_column,
            _ => 0,
        }
    }

    /// Whether the board is up with a card selected.
    pub open spec fn is_card_selected(self) -> bool {
        self matches ViewModel::Board { selection: SelectionModel::Selected { .. }, .. }
    }

    /// The view after the help key: help over this view, or, where help is up, the view
    /// that it covered.
    pub open spec fn toggle_help(self) -> ViewModel {
        match self {
            ViewModel::Help { previous } => *previous,
            other => ViewModel::Help { previous: Box::new(other) },
        }
    }
}

impl SelectionModel {
    /// Whether the selection can stand while the column at `column` is in focus: a highlight
    /// belongs to one column, anything else to any.
    pub open spec fn is_in_column(self, column: usize) -> bool {
        match self {
            SelectionModel::Highlighted { column: c, .. } => c == column,
            _ => true,
        }
    }
}

impl FormModel {
    /// The empty form: nothing typed, the title in focus, keys moving between fields.
    pub open spec fn empty() -> FormModel {
        FormModel {
            title: Seq::empty(),
            description: Seq::empty(),
            assignee: Seq::empty(),
            current_field: FormField::Title,
            input_mode: InputMode::Normal,
        }
    }

    /// The form filled from a card's fields, an absent one left empty.
    pub open spec fn for_edit(
        title: Seq<char>,
        description: Option<Seq<char>>,
        assignee: Option<Seq<char>>,
    ) -> FormModel {
        FormModel {
            title,
            description: match description {
                Some(text) => text,
                None => Seq::empty(),
            },
            assignee: match assignee {
                Some(text) => text,
                None => Seq::empty(),
            },
            current_field: FormField::Title,
            input_mode: InputMode::Normal,
        }
    }

    /// A form can be submitted when its title is not blank.
    pub open spec fn is_valid(self) -> bool {
        !blank(self.title)
    }

    /// What stands in the field in focus.
    pub open spec fn current_text(self) -> Seq<char> {
        match self.current_field {
            FormField::Title => self.title,
            FormField::Description => self.description,
            FormField::Assignee => self.assignee,
        }
    }

    /// The form with `text` in the field in focus.
    pub open spec fn with_current_text(self, text: Seq<char>) -> FormModel {
        match self.current_field {
            FormField::Title => FormModel { title: text, ..self },
            FormField::Description => FormModel { description: text, ..self },
            FormField::Assignee => FormModel { assignee: text, ..self },
        }
    }
}

/// What an optional field of the form stands for: nothing where it is blank.
pub open spec fn optional_entry(text: Seq<char>) -> Option<Seq<char>> {
    if blank(text) {
        None
    } else {
        Some(text)
    }
}

impl Default for View {
    /// The view that opens on start.
    fn default() -> (view: View)
        ensures
            view@ == ViewModel::initial(),
    {
        View::Board { selected_column: 0, selection: Selection::Nothing }
    }
}

impl Clone for View {
    /// A copy of the view, the view under a help overlay included.
    fn clone(&self) -> (copy: View)
        ensures
            copy == *self,
        decreases self,
    {
        match self {
            View::Board { selected_column, selection } => View::Board {
                selected_column: *selected_column,
                selection: match selection {
                    Selection::Nothing => Selection::Nothing,
                    Selection::Highlighted { column, card_index } => Selection::Highlighted {
                        column: *column,
                        card_index: *card_index,
                    },
                    Selection::Selected { card_id } => Selection::Selected {
                        card_id: card_id.clone(),
                    },
                },
            },
            View::CardDetail { card_id } => View::CardDetail { card_id: card_id.clone() },
            View::CardForm { mode } => View::CardForm {
                mode: match mode {
                    FormMode::Create { column_id } => FormMode::Create {
                        column_id: column_id.clone(),
                    },
                    FormMode::Edit { card_id } => FormMode::Edit { card_id: card_id.clone() },
                },
            },
            View::MoveCard { card_id, target_column } => View::MoveCard {
                card_id: card_id.clone(),
                target_column: *target_column,
            },
            View::ConfirmDelete { card_id } => View::ConfirmDelete { card_id: card_id.clone() },
            View::Help { previous } => {
                let under: &View = &**previous;
                View::Help { previous: Box::new(under.clone()) }
            },
        }
    }
}

impl View {
    /// The card that the view is about, if it is about one.
    pub fn selected_card_id(&self) -> (card_id: Option<&str>)
        ensures
            match card_id {
                Some(id) => self@.selected_card_id() == Some(id@),
                None => self@.selected_card_id() is None,
            },
    {
        match self {
            View::Board { selection: Selection::Selected { card_id }, .. } => Some(
                card_id.as_str(),
            ),
            View::CardDetail { card_id } => Some(card_id.as_str()),
            View::MoveCard { card_id, .. } => Some(card_id.as_str()),
            View::ConfirmDelete { card_id } => Some(card_id.as_str()),
            _ => None,
        }
    }

    /// The column in focus on the board; the first column on every other screen.
    pub fn selected_column(&self) -> (column: usize)
        ensures
            column == self@.selected_column(),
    {
        match self {
            View::Board { selected_column, .. } => *selected_column,
            _ => 0,
        }
    }

    /// Whether the board is up with a card selected.
    pub fn is_card_selected(&self) -> (selected: bool)
        ensures
            selected == self@.is_card_selected(),
    {
        match self {
            View::Board { selection: Selection::Selected { .. }, .. } => true,
            _ => false,
        }
    }

    /// Whether the help overlay is up.
    pub fn is_help(&self) -> (help: bool)
        ensures
            help == (self@ is Help),
    {
        match self {
            View::Help { .. } => true,
            _ => false,
        }
    }

    /// Opens the help overlay over this view, or closes it where it is up: what was under it
    /// comes back as it was.
    pub fn toggle_help(self) -> (view: View)
        ensures
            view@ == self@.toggle_help(),
            match self {
                View::Help { previous } => view == *previous,
                other => view == (View::Help { previous: Box::new(other) }),
            },
    {
        match self {
            View::Help { previous } => *previous,
            other => View::Help { previous: Box::new(other) },
        }
    }
}

impl Default for Selection {
    /// Nothing selected.
    fn default() -> (selection: Selection)
        ensures
            selection@ == SelectionModel::Nothing,
    {
        Selection::Nothing
    }
}

impl Selection {
    /// The identifier of the card selected, if one is.
    pub fn card_id(&self) -> (card_id: Option<&str>)
        ensures
            match card_id {
                Some(id) => self@ == (SelectionModel::Selected { card_id: id@ }),
                None => !(self@ is Selected),
            },
    {
        match self {
            Selection::Selected { card_id } => Some(card_id.as_str()),
            _ => None,
        }
    }

    /// The place of the card highlighted, if one is.
    pub fn card_index(&self) -> (index: Option<usize>)
        ensures
            match index {
                Some(i) => self@ matches SelectionModel::Highlighted { card_index, .. }
                    && card_index == i,
                None => !(self@ is Highlighted),
            },
    {
        match self {
            Selection::Highlighted { card_index, .. } => Some(*card_index),
            _ => None,
        }
    }

    /// Whether the selection can stand while the column at `column` is in focus.
    pub fn is_in_column(&self, column: usize) -> (fits: bool)
        ensures
            fits == self@.is_in_column(column),
    {
        match self {
            Selection::Highlighted { column: c, .. } => *c == column,
            _ => true,
        }
    }
}

impl Default for FormField {
    /// The title: the field where the form starts.
    fn default() -> (field: FormField)
        ensures
            field == FormField::Title,
    {
        FormField::Title
    }
}

impl FormField {
    /// The field below this one; from the last, the first.
    pub open spec fn spec_next(self) -> FormField {
        match self {
            FormField::Title => FormField::Description,
            FormField::Description => FormField::Assignee,
            FormField::Assignee => FormField::Title,
        }
    }

    /// The field above this one; from the first, the last.
    pub open spec fn spec_prev(self) -> FormField {
        match self {
            FormField::Title => FormField::Assignee,
            FormField::Description => FormField::Title,
            FormField::Assignee => FormField::Description,
        }
    }

    /// The field below this one; from the last, the first.
    #[verifier::when_used_as_spec(spec_next)]
    pub fn next(self) -> (field: FormField)
        ensures
            field == self.spec_next(),
    {
        match self {
            FormField::Title => FormField::Description,
            FormField::Description => FormField::Assignee,
            FormField::Assignee => FormField::Title,
        }
    }

    /// The field above this one; from the first, the last.
    #[verifier::when_used_as_spec(spec_prev)]
    pub fn prev(self) -> (field: FormField)
        ensures
            field == self.spec_prev(),
    {
        match self {
            FormField::Title => FormField::Assignee,
            FormField::Description => FormField::Title,
            FormField::Assignee => FormField::Description,
        }
    }
}

impl Default for InputMode {
    /// Keys move between fields.
    fn default() -> (mode: InputMode)
        ensures
            mode == InputMode::Normal,
    {
        InputMode::Normal
    }
}

impl Default for CardFormData {
    /// The empty form.
    fn default() -> (form: CardFormData)
        ensures
            form@ == FormModel::empty(),
    {
        CardFormData {
            title: String::new(),
            description: String::new(),
            assignee: String::new(),
            current_field: FormField::Title,
            input_mode: InputMode::Normal,
        }
    }
}

impl CardFormData {
    /// The form filled from a card's fields, to edit them.
    pub fn for_edit(title: String, description: Option<String>, assignee: Option<String>) -> (form:
        CardFormData)
        ensures
            form@ == FormModel::for_edit(
                title@,
                crate::text::optional_text(description),
                crate::text::optional_text(assignee),
            ),
    {
        CardFormData {
            title,
            description: match description {
                Some(text) => text,
                None => String::new(),
            },
            assignee: match assignee {
                Some(text) => text,
                None => String::new(),
            },
            current_field: FormField::Title,
            input_mode: InputMode::Normal,
        }
    }

    /// The text of the field in focus, to be typed into: what is written through the
    /// reference goes to that field, and the rest of the form stays as it is.
    pub fn current_field_mut(&mut self) -> (field: &mut String)
        ensures
            field@ == old(self)@.current_text(),
            final(self)@ == old(self)@.with_current_text(final(field)@),
    {
        match self.current_field {
            FormField::Title => &mut self.title,
            FormField::Description => &mut self.description,
            FormField::Assignee => &mut self.assignee,
        }
    }

    /// Whether the form can be submitted: its title is not blank. A form without any title
    /// cannot.
    pub fn is_valid(&self) -> (valid: bool)
        ensures
            valid == self@.is_valid(),
            self@.title.len() == 0 ==> !valid,
    {
        !is_blank(self.title.as_str())
    }

    /// What the form stands for: the title as typed, and description and assignee unless
    /// they are blank.
    pub fn to_card_values(self) -> (values: (String, Option<String>, Option<String>))
        ensures
            values.0 == self.title,
            values.1 == if blank(self.description@) {
                None
            } else {
                Some(self.description)
            },
            values.2 == if blank(self.assignee@) {
                None
            } else {
                Some(self.assignee)
            },
    {
        let description = if is_blank(self.description.as_str()) {
            None
        } else {
            Some(self.description)
        };
        let assignee = if is_blank(self.assignee.as_str()) {
            None
        } else {
            Some(self.assignee)
        };
        (self.title, description, assignee)
    }
}

/// Help opens over a view and closes back to it: two presses of the help key, from a view that
/// is not help, end where they began, and help never opens over help.
pub proof fn lemma_help_closes_to_previous(view: ViewModel)
    requires
        !(view is Help),
    ensures
        view.toggle_help() is Help,
        view.toggle_help().toggle_help() == view,
{
}

/// Going down through the fields of the form comes back to where it started after three
/// steps, and going up undoes going down.
pub proof fn lemma_fields_cycle(field: FormField)
    ensures
        field.next().next().next() == field,
        field.next().prev() == field,
        field.prev().next() == field,
{
}

} // verus!
