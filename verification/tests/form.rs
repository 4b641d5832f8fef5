use bindmidi::config::{
    AbsolutePos2D, BindAction, KeyboardKeyBindAction, MouseButton, NotFound, RelativePos2D,
    ScrollBindAction, ScrollDirection, TextBindAction,
};
use bindmidi::form::{button_from_index, direction_from_index, note_from_selection, ActionForm};
use bindmidi::note::{Note, NoteError};
use bindmidi::state::interface::{StateMessageRequest as Req, StateMessageResponse as Res};
use bindmidi::state::table_data_adaptor::{
    cell_request, cell_text, column_type, num_rows, Column, COLUMNS,
};

fn form() -> ActionForm {
    ActionForm {
        key: "k".to_string(),
        mouse_button: 1,
        x_pixels: -4,
        y_pixels: 5,
        x_pos: 100,
        y_pos: 200,
        scroll_direction: 2,
        scroll_amount: 9,
        text: "typed".to_string(),
    }
}

#[test]
fn indices_name_buttons_and_directions() {
    for button in [MouseButton::Left, MouseButton::Right, MouseButton::Middle] {
        assert_eq!(button_from_index(button.index() as i32), Some(button));
    }
    for direction in [ScrollDirection::Up, ScrollDirection::Down, ScrollDirection::Left, ScrollDirection::Right] {
        assert_eq!(direction_from_index(direction.index() as i32), Some(direction));
    }
    assert_eq!(button_from_index(3), None);
    assert_eq!(button_from_index(-1), None);
    assert_eq!(direction_from_index(4), None);
    assert_eq!(direction_from_index(-1), None);
}

#[test]
fn selection_names_a_note() {
    assert_eq!(note_from_selection(0, 4), Ok(Note::from_midi(60)));
    assert_eq!(note_from_selection(11, -1), Ok(Note::from_midi(11)));
    assert_eq!(note_from_selection(7, 9), Ok(Note::from_midi(127)));
    assert_eq!(note_from_selection(-1, 4), Err(NoteError::InvalidPitchClass));
    assert_eq!(note_from_selection(12, 4), Err(NoteError::InvalidPitchClass));
    assert_eq!(note_from_selection(256, 4), Err(NoteError::InvalidPitchClass));
    assert_eq!(note_from_selection(0, 10), Err(NoteError::OutOfRange));
    assert_eq!(note_from_selection(0, 255), Err(NoteError::OutOfRange));
    assert_eq!(note_from_selection(0, -129), Err(NoteError::OutOfRange));
}

#[test]
fn form_stands_for_the_selected_kind_of_action() {
    let f = form();
    let key = KeyboardKeyBindAction { key: "k".to_string() };
    assert_eq!(f.action(0), Some(BindAction::PressKey(key.clone())));
    assert_eq!(f.action(1), Some(BindAction::HoldKey(key)));
    assert_eq!(f.action(2), Some(BindAction::Click(MouseButton::Right)));
    assert_eq!(f.action(3), Some(BindAction::HoldClick(MouseButton::Right)));
    assert_eq!(f.action(4), Some(BindAction::MoveMouseRelative(RelativePos2D { x: -4, y: 5 })));
    assert_eq!(f.action(5), Some(BindAction::MoveMouseAbsolute(AbsolutePos2D { x: 100, y: 200 })));
    assert_eq!(
        f.action(6),
        Some(BindAction::Scroll(ScrollBindAction { direction: ScrollDirection::Left, amount: 9 }))
    );
    assert_eq!(f.action(7), Some(BindAction::Text(TextBindAction { text: "typed".to_string() })));
    assert_eq!(f.action(8), Some(BindAction::Debug));
    assert_eq!(f.action(9), None);
    assert_eq!(f.action(-1), None);
    for index in 0..=8 {
        assert_eq!(f.action(index).unwrap().index() as i32, index);
    }
}

#[test]
fn form_with_an_unknown_button_or_direction_stands_for_nothing() {
    let mut f = form();
    f.mouse_button = 3;
    f.scroll_direction = 4;
    assert_eq!(f.action(2), None);
    assert_eq!(f.action(3), None);
    assert_eq!(f.action(6), None);
    assert!(f.action(0).is_some());
}

#[test]
fn shown_action_is_read_back_and_other_controls_stay() {
    let actions = [
        BindAction::PressKey(KeyboardKeyBindAction { key: "p".to_string() }),
        BindAction::HoldKey(KeyboardKeyBindAction { key: String::new() }),
        BindAction::Click(MouseButton::Middle),
        BindAction::HoldClick(MouseButton::Left),
        BindAction::MoveMouseRelative(RelativePos2D { x: 1, y: -1 }),
        BindAction::MoveMouseAbsolute(AbsolutePos2D { x: 7, y: 8 }),
        BindAction::Scroll(ScrollBindAction { direction: ScrollDirection::Up, amount: 3 }),
        BindAction::Text(TextBindAction { text: "t".to_string() }),
        BindAction::Debug,
    ];
    for action in actions {
        let mut f = form();
        f.show(&action);
        assert_eq!(f.action(action.index() as i32), Some(action.clone()));
    }
    let mut f = form();
    f.show(&BindAction::Click(MouseButton::Middle));
    assert_eq!(f, ActionForm { mouse_button: 2, ..form() });
    let mut f = form();
    f.show(&BindAction::Debug);
    assert_eq!(f, form());
}

#[test]
fn table_has_a_note_and_an_action_column() {
    assert_eq!(COLUMNS, 2);
    assert_eq!(column_type(0), Some(Column::Note));
    assert_eq!(column_type(1), Some(Column::Action));
    assert_eq!(column_type(2), None);
    assert_eq!(column_type(-1), None);
    assert_eq!(num_rows(0), Some(0));
    assert_eq!(num_rows(17), Some(17));
    assert_eq!(num_rows(i32::MAX as usize), Some(i32::MAX));
    assert_eq!(num_rows(i32::MAX as usize + 1), None);
}

#[test]
fn cells_ask_for_their_text() {
    assert_eq!(cell_request(0, 3), Some(Req::NoteString(3)));
    assert_eq!(cell_request(1, 0), Some(Req::ActionString(0)));
    assert_eq!(cell_request(2, 0), None);
    assert_eq!(cell_request(0, -1), None);
    assert_eq!(cell_text(Column::Note, Res::NoteString(Ok("C4".to_string()))), Some("C4".to_string()));
    assert_eq!(cell_text(Column::Action, Res::ActionString(Ok("Click".to_string()))), Some("Click".to_string()));
    assert_eq!(cell_text(Column::Note, Res::ActionString(Ok("Click".to_string()))), None);
    assert_eq!(cell_text(Column::Note, Res::NoteString(Err(NotFound))), None);
    assert_eq!(cell_text(Column::Action, Res::LenBinds(1)), None);
}
