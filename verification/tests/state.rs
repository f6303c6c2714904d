//! The view state and the card form, and how the prompts show a card.

use clicky::cli::interactive::utils::chosen_card_id;
use clicky::cli::interactive::utils::format_card_option;
use clicky::cli::tui::state::CardFormData;
use clicky::cli::tui::state::FormField;
use clicky::cli::tui::state::FormMode;
use clicky::cli::tui::state::InputMode;
use clicky::cli::tui::state::Selection;
use clicky::cli::tui::state::View;

fn all_views() -> Vec<View> {
    vec![
        View::Board { selected_column: 0, selection: Selection::Nothing },
        View::Board {
            selected_column: 1,
            selection: Selection::Highlighted { column: 1, card_index: 4 },
        },
        View::Board { selected_column: 2, selection: Selection::Selected { card_id: "A-1".to_string() } },
        View::CardDetail { card_id: "A-2".to_string() },
        View::CardForm { mode: FormMode::Create { column_id: "todo".to_string() } },
        View::CardForm { mode: FormMode::Edit { card_id: "A-3".to_string() } },
        View::MoveCard { card_id: "A-4".to_string(), target_column: 2 },
        View::ConfirmDelete { card_id: "A-5".to_string() },
    ]
}

#[test]
fn the_default_view_is_the_board_with_nothing_selected() {
    assert_eq!(View::default(), View::Board { selected_column: 0, selection: Selection::Nothing });
    assert_eq!(Selection::default(), Selection::Nothing);
    assert_eq!(FormField::default(), FormField::Title);
    assert_eq!(InputMode::default(), InputMode::Normal);
}

#[test]
fn a_view_knows_its_card() {
    let cards: Vec<Option<String>> = all_views()
        .iter()
        .map(|view| view.selected_card_id().map(|id| id.to_string()))
        .collect();
    assert_eq!(
        cards,
        vec![
            None,
            None,
            Some("A-1".to_string()),
            Some("A-2".to_string()),
            None,
            None,
            Some("A-4".to_string()),
            Some("A-5".to_string()),
        ]
    );
    let help = View::Help { previous: Box::new(View::CardDetail { card_id: "A-2".to_string() }) };
    assert_eq!(help.selected_card_id(), None);
}

#[test]
fn a_view_knows_its_column() {
    let columns: Vec<usize> = all_views().iter().map(|view| view.selected_column()).collect();
    assert_eq!(columns, vec![0, 1, 2, 0, 0, 0, 0, 0]);
}

#[test]
fn only_the_board_has_a_card_selected() {
    let selected: Vec<bool> = all_views().iter().map(|view| view.is_card_selected()).collect();
    assert_eq!(selected, vec![false, false, true, false, false, false, false, false]);
}

#[test]
fn help_wraps_a_view_and_unwraps_it() {
    for view in all_views() {
        assert!(!view.is_help());
        let help = view.clone().toggle_help();
        assert!(help.is_help());
        assert_eq!(help, View::Help { previous: Box::new(view.clone()) });
        assert_eq!(help.clone(), help);
        assert_eq!(help.toggle_help(), view);
    }
}

#[test]
fn a_selection_answers_for_itself() {
    let nothing = Selection::Nothing;
    let highlighted = Selection::Highlighted { column: 1, card_index: 3 };
    let selected = Selection::Selected { card_id: "A-1".to_string() };

    assert_eq!(nothing.card_id(), None);
    assert_eq!(highlighted.card_id(), None);
    assert_eq!(selected.card_id(), Some("A-1"));

    assert_eq!(nothing.card_index(), None);
    assert_eq!(highlighted.card_index(), Some(3));
    assert_eq!(selected.card_index(), None);

    assert!(nothing.is_in_column(0));
    assert!(highlighted.is_in_column(1));
    assert!(!highlighted.is_in_column(0));
    assert!(selected.is_in_column(7));
}

#[test]
fn the_fields_of_the_form_go_round() {
    assert_eq!(FormField::Title.next(), FormField::Description);
    assert_eq!(FormField::Description.next(), FormField::Assignee);
    assert_eq!(FormField::Assignee.next(), FormField::Title);
    assert_eq!(FormField::Title.prev(), FormField::Assignee);
    assert_eq!(FormField::Description.prev(), FormField::Title);
    assert_eq!(FormField::Assignee.prev(), FormField::Description);
}

#[test]
fn the_empty_form_is_not_valid() {
    let form = CardFormData::default();
    assert_eq!(form.title, "");
    assert_eq!(form.description, "");
    assert_eq!(form.assignee, "");
    assert_eq!(form.current_field, FormField::Title);
    assert_eq!(form.input_mode, InputMode::Normal);
    assert!(!form.is_valid());
}

#[test]
fn a_form_needs_a_title_that_is_not_blank() {
    let mut form = CardFormData::default();
    form.title = " \t\n ".to_string();
    assert!(!form.is_valid());
    form.title = " x ".to_string();
    assert!(form.is_valid());
    form.title = "\u{2003}".to_string();
    assert!(!form.is_valid());
}

#[test]
fn a_form_is_filled_from_a_card() {
    let form = CardFormData::for_edit("Title".to_string(), None, Some("Ann".to_string()));
    assert_eq!(form.title, "Title");
    assert_eq!(form.description, "");
    assert_eq!(form.assignee, "Ann");
    assert_eq!(form.current_field, FormField::Title);
    assert_eq!(form.input_mode, InputMode::Normal);
}

#[test]
fn typing_goes_to_the_field_in_focus() {
    let mut form = CardFormData::default();
    form.current_field_mut().push_str("T");
    form.current_field = FormField::Description;
    form.current_field_mut().push_str("D");
    form.current_field = FormField::Assignee;
    form.current_field_mut().push_str("A");
    assert_eq!(form.title, "T");
    assert_eq!(form.description, "D");
    assert_eq!(form.assignee, "A");
}

#[test]
fn blank_fields_of_the_form_stand_for_nothing() {
    let mut form = CardFormData::default();
    form.title = " Title ".to_string();
    form.description = "   ".to_string();
    form.assignee = " Ann".to_string();
    assert_eq!(
        form.clone().to_card_values(),
        (" Title ".to_string(), None, Some(" Ann".to_string()))
    );
    form.description = "Text".to_string();
    form.assignee = String::new();
    assert_eq!(form.to_card_values(), (" Title ".to_string(), Some("Text".to_string()), None));
}

#[test]
fn a_card_is_shown_with_or_without_its_column() {
    assert_eq!(format_card_option("PRJ-001", "Fix it", None), "PRJ-001: Fix it");
    assert_eq!(format_card_option("PRJ-001", "Fix it", Some("todo")), "PRJ-001 [todo]: Fix it");
    assert_eq!(format_card_option("", "", None), ": ");
    assert_eq!(format_card_option("", "", Some("")), " []: ");
}

#[test]
fn a_chosen_line_gives_the_card_back() {
    assert_eq!(chosen_card_id("PRJ-001: Fix it"), "PRJ-001");
    assert_eq!(chosen_card_id("PRJ-001: Fix: it now"), "PRJ-001");
    assert_eq!(chosen_card_id("no colon"), "no colon");
    assert_eq!(chosen_card_id(": title"), "");
    assert_eq!(chosen_card_id(""), "");
    assert_eq!(chosen_card_id(&format_card_option("TES-042", "A: B", None)), "TES-042");
    assert_eq!(chosen_card_id(&format_card_option("TES-042", "T", Some("todo"))), "TES-042 [todo]");
}
