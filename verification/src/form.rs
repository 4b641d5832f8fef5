//! The edit form of a bind: the values of its controls, and the bind that
//! they stand for.

use crate::config::{
    spec_action_index, AbsolutePos2D, ActionView, BindAction, KeyboardKeyBindAction, MouseButton,
    RelativePos2D, ScrollBindAction, ScrollDirection, TextBindAction,
};
use crate::note::{spec_new, Note, NoteError};
use vstd::prelude::*;

verus! {

/// The values of the controls that describe an action. Each kind of action
/// reads the controls that belong to it and leaves the others alone.
#[derive(Debug, PartialEq, Eq)]
pub struct ActionForm {
    /// The key, for pressing and holding a key.
    pub key: String,
    /// The selected mouse button, for clicking and holding a button.
    pub mouse_button: i32,
    /// The offset, for moving the pointer by an offset.
    pub x_pixels: i32,
    pub y_pixels: i32,
    /// The place, for moving the pointer to a place.
    pub x_pos: i32,
    pub y_pos: i32,
    /// The selected direction and the amount, for scrolling.
    pub scroll_direction: i32,
    pub scroll_amount: i32,
    /// The text, for typing.
    pub text: String,
}

/// A form as contracts see it.
pub struct ActionFormView {
    pub key: Seq<char>,
    pub mouse_button: i32,
    pub x_pixels: i32,
    pub y_pixels: i32,
    pub x_pos: i32,
    pub y_pos: i32,
    pub scroll_direction: i32,
    pub scroll_amount: i32,
    pub text: Seq<char>,
}

impl View for ActionForm {
    type V = ActionFormView;

    open spec fn view(&self) -> ActionFormView {
        ActionFormView {
            key: self.key@,
            mouse_button: self.mouse_button,
            x_pixels: self.x_pixels,
            y_pixels: self.y_pixels,
            x_pos: self.x_pos,
            y_pos: self.y_pos,
            scroll_direction: self.scroll_direction,
            scroll_amount: self.scroll_amount,
            text: self.text@,
        }
    }
}

/// The mouse button that a number stands for.
pub open spec fn spec_button(index: int) -> Option<MouseButton> {
    if index == 0 {
        Some(MouseButton::Left)
    } else if index == 1 {
        Some(MouseButton::Right)
    } else if index == 2 {
        Some(MouseButton::Middle)
    } else {
        None
    }
}

/// The direction that a number stands for.
pub open spec fn spec_direction(index: int) -> Option<ScrollDirection> {
    if index == 0 {
        Some(ScrollDirection::Up)
    } else if index == 1 {
        Some(ScrollDirection::Down)
    } else if index == 2 {
        Some(ScrollDirection::Left)
    } else if index == 3 {
        Some(ScrollDirection::Right)
    } else {
        None
    }
}

/// The action that a form stands for when the kind with the given number is
/// selected; `None` where the number names no kind, or the form's button or
/// direction names none.
pub open spec fn spec_action(index: int, form: ActionFormView) -> Option<ActionView> {
    if index == 0 {
        Some(ActionView::PressKey(form.key))
    } else if index == 1 {
        Some(ActionView::HoldKey(form.key))
    } else if index == 2 {
        match spec_button(form.mouse_button as int) {
            Some(button) => Some(ActionView::Click(button)),
            None => None,
        }
    } else if index == 3 {
        match spec_button(form.mouse_button as int) {
            Some(button) => Some(ActionView::HoldClick(button)),
            None => None,
        }
    } else if index == 4 {
        Some(ActionView::MoveMouseRelative(RelativePos2D { x: form.x_pixels, y: form.y_pixels }))
    } else if index == 5 {
        Some(ActionView::MoveMouseAbsolute(AbsolutePos2D { x: form.x_pos, y: form.y_pos }))
    } else if index == 6 {
        match spec_direction(form.scroll_direction as int) {
            Some(direction) => Some(
                ActionView::Scroll(ScrollBindAction { direction, amount: form.scroll_amount }),
            ),
            None => None,
        }
    } else if index == 7 {
        Some(ActionView::Text(form.text))
    } else if index == 8 {
        Some(ActionView::Debug)
    } else {
        None
    }
}

/// The form after an action was shown in it: the controls of the action's
/// kind hold the action's values, the others what they held.
pub open spec fn spec_shown(action: ActionView, form: ActionFormView) -> ActionFormView {
    match action {
        ActionView::PressKey(key) | ActionView::HoldKey(key) => ActionFormView { key, ..form },
        ActionView::Click(button) | ActionView::HoldClick(button) => ActionFormView {
            mouse_button: button.spec_index() as i32,
            ..form
        },
        ActionView::MoveMouseRelative(by) => ActionFormView {
            x_pixels: by.x,
            y_pixels: by.y,
            ..form
        },
        ActionView::MoveMouseAbsolute(to) => ActionFormView { x_pos: to.x, y_pos: to.y, ..form },
        ActionView::Scroll(param) => ActionFormView {
            scroll_direction: param.direction.spec_index() as i32,
            scroll_amount: param.amount,
            ..form
        },
        ActionView::Text(text) => ActionFormView { text, ..form },
        ActionView::Debug => form,
    }
}

/// The note that a selected pitch class and an octave stand for.
pub open spec fn spec_note(class: int, octave: int) -> Result<int, NoteError> {
    if !(0 <= class <= 11) {
        Err(NoteError::InvalidPitchClass)
    } else if !(-128 <= octave <= 127) {
        Err(NoteError::OutOfRange)
    } else {
        spec_new(class, octave)
    }
}

/// The mouse button that a number stands for.
pub fn button_from_index(index: i32) -> (button: Option<MouseButton>)
    ensures
        button == spec_button(index as int),
{
    if index == 0 {
        Some(MouseButton::Left)
    } else if index == 1 {
        Some(MouseButton::Right)
    } else if index == 2 {
        Some(MouseButton::Middle)
    } else {
        None
    }
}

/// The direction that a number stands for.
pub fn direction_from_index(index: i32) -> (direction: Option<ScrollDirection>)
    ensures
        direction == spec_direction(index as int),
{
    if index == 0 {
        Some(ScrollDirection::Up)
    } else if index == 1 {
        Some(ScrollDirection::Down)
    } else if index == 2 {
        Some(ScrollDirection::Left)
    } else if index == 3 {
        Some(ScrollDirection::Right)
    } else {
        None
    }
}

/// The note that a selected pitch class and an octave stand for.
pub fn note_from_selection(class: i32, octave: i32) -> (note: Result<Note, NoteError>)
    ensures
        match spec_note(class as int, octave as int) {
            Ok(number) => note matches Ok(made) && made@ == number,
            Err(e) => note == Err::<Note, NoteError>(e),
        },
{
    if class < 0 || class > 11 {
        return Err(NoteError::InvalidPitchClass);
    }
    if octave < -128 || octave > 127 {
        return Err(NoteError::OutOfRange);
    }
    Note::new(class as u8, octave as i8)
}

impl ActionForm {
    /// The action that the form stands for when the kind with the given
    /// number is selected.
    pub fn action(&self, index: i32) -> (action: Option<BindAction>)
        ensures
            match spec_action(index as int, self@) {
                Some(expected) => action matches Some(made) && made@ == expected,
                None => action is None,
            },
    {
        if index == 0 {
            Some(BindAction::PressKey(KeyboardKeyBindAction { key: self.key.clone() }))
        } else if index == 1 {
            Some(BindAction::HoldKey(KeyboardKeyBindAction { key: self.key.clone() }))
        } else if index == 2 {
            match button_from_index(self.mouse_button) {
                Some(button) => Some(BindAction::Click(button)),
                None => None,
            }
        } else if index == 3 {
            match button_from_index(self.mouse_button) {
                Some(button) => Some(BindAction::HoldClick(button)),
                None => None,
            }
        } else if index == 4 {
            Some(
                BindAction::MoveMouseRelative(RelativePos2D { x: self.x_pixels, y: self.y_pixels }),
            )
        } else if index == 5 {
            Some(BindAction::MoveMouseAbsolute(AbsolutePos2D { x: self.x_pos, y: self.y_pos }))
        } else if index == 6 {
            match direction_from_index(self.scroll_direction) {
                Some(direction) => Some(
                    BindAction::Scroll(ScrollBindAction { direction, amount: self.scroll_amount }),
                ),
                None => None,
            }
        } else if index == 7 {
            Some(BindAction::Text(TextBindAction { text: self.text.clone() }))
        } else if index == 8 {
            Some(BindAction::Debug)
        } else {
            None
        }
    }

    /// Shows an action in the form: sets the controls of the action's kind
    /// and leaves the others as they are.
    pub fn show(&mut self, action: &BindAction)
        ensures
            final(self)@ == spec_shown(action@, old(self)@),
    {
        match action {
            BindAction::PressKey(param) => {
                self.key = param.key.clone();
            },
            BindAction::HoldKey(param) => {
                self.key = param.key.clone();
            },
            BindAction::Click(button) => {
                self.mouse_button = button.index() as i32;
            },
            BindAction::HoldClick(button) => {
                self.mouse_button = button.index() as i32;
            },
            BindAction::MoveMouseRelative(by) => {
                self.x_pixels = by.x;
                self.y_pixels = by.y;
            },
            BindAction::MoveMouseAbsolute(to) => {
                self.x_pos = to.x;
                self.y_pos = to.y;
            },
            BindAction::Scroll(param) => {
                self.scroll_direction = param.direction.index() as i32;
                self.scroll_amount = param.amount;
            },
            BindAction::Text(param) => {
                self.text = param.text.clone();
            },
            BindAction::Debug => {},
        }
    }
}

/// An action that was shown in a form is read back from it: with the
/// action's kind selected, the form stands for the action again.
pub proof fn lemma_shown_is_read_back(action: ActionView, form: ActionFormView)
    ensures
        spec_action(spec_action_index(action), spec_shown(action, form)) == Some(action),
{
}

/// An action read from a form is of the kind that was selected.
pub proof fn lemma_read_has_the_kind(index: int, form: ActionFormView)
    requires
        spec_action(index, form) is Some,
    ensures
        spec_action_index(spec_action(index, form)->Some_0) == index,
{
}

} // verus!
