//! From key and mouse events to navigation commands.
//!
//! The controller keeps track of the pointer: where it is, and where the
//! left button went down if it is still held. Keys navigate while no drag is
//! under way; a left click recentres, a left drag selects a rectangle to zoom
//! into, and a right click recentres and zooms out.

use vstd::prelude::*;

verus! {

/// The keys and mouse buttons that mean something here.
#[derive(Clone, Copy, Debug, PartialEq, Eq, Structural)]
pub enum Button {
    Left,
    Right,
    Up,
    Down,
    Z,
    A,
    X,
    S,
    Backspace,
    Q,
    F1,
    F2,
    MouseLeft,
    MouseRight,
    /// Any other key or button.
    Other,
}

/// What happened at the window.
#[derive(Clone, Copy, Debug, PartialEq, Eq)]
pub enum Input {
    /// A key or button went down.
    Pressed(Button),
    /// A key or button came up.
    Released(Button),
    /// The pointer moved to a pixel, given as column and row.
    Moved((u32, u32)),
}

/// The pointer as far as navigation cares.
#[derive(Clone, Copy, Debug, PartialEq, Eq)]
pub struct Pointer {
    /// Where the pointer is.
    pub position: (u32, u32),
    /// Where the left button went down, while it is held.
    pub pressed_at: Option<(u32, u32)>,
}

/// What the program is to do in answer to an input.
#[derive(Clone, Copy, Debug, PartialEq, Eq)]
pub enum Action {
    /// Nothing at all.
    Nothing,
    /// Visit the view one step to the left.
    StepLeft,
    /// Visit the view one step to the right.
    StepRight,
    /// Visit the view one step up.
    StepUp,
    /// Visit the view one step down.
    StepDown,
    /// Visit the view one zoom step closer.
    ZoomIn,
    /// Visit the view one zoom step further away.
    ZoomOut,
    /// Put a sharper view in place of the current one.
    Sharpen,
    /// Put a less sharp view in place of the current one.
    Unsharpen,
    /// Go back one view.
    Undo,
    /// Leave the program.
    Quit,
    /// Show the zoom and the iteration budget.
    ShowInfo,
    /// Audit the precision of the current view.
    Audit,
    /// Visit the view centred on a pixel.
    CenterOn((u32, u32)),
    /// Visit the view that a dragged rectangle with these corners selects.
    ZoomBox((u32, u32), (u32, u32)),
    /// Visit the view centred on a pixel and one zoom step further away.
    CenterAndZoomOut((u32, u32)),
    /// Show the rectangle with these corners over the frame.
    Preview((u32, u32), (u32, u32)),
}

/// What a key asks for.
pub open spec fn key_action(button: Button) -> Action {
    match button {
        Button::Left => Action::StepLeft,
        Button::Right => Action::StepRight,
        Button::Up => Action::StepUp,
        Button::Down => Action::StepDown,
        Button::Z => Action::ZoomIn,
        Button::A => Action::ZoomOut,
        Button::X => Action::Sharpen,
        Button::S => Action::Unsharpen,
        Button::Backspace => Action::Undo,
        Button::Q => Action::Quit,
        Button::F1 => Action::ShowInfo,
        Button::F2 => Action::Audit,
        _ => Action::Nothing,
    }
}

/// The pointer after an input.
pub open spec fn next_pointer(pointer: Pointer, input: Input) -> Pointer {
    match input {
        Input::Pressed(Button::MouseLeft) => Pointer {
            pressed_at: Some(pointer.position),
            ..pointer
        },
        Input::Released(Button::MouseLeft) => Pointer { pressed_at: None, ..pointer },
        Input::Moved(position) => Pointer { position, ..pointer },
        _ => pointer,
    }
}

/// What an input asks for.
pub open spec fn action_for(pointer: Pointer, input: Input) -> Action {
    match input {
        Input::Pressed(_) => Action::Nothing,
        Input::Released(Button::MouseLeft) => match pointer.pressed_at {
            Some(start) => if start == pointer.position {
                Action::CenterOn(start)
            } else {
                Action::ZoomBox(start, pointer.position)
            },
            None => Action::Nothing,
        },
        Input::Released(Button::MouseRight) => if pointer.pressed_at is None {
            Action::CenterAndZoomOut(pointer.position)
        } else {
            Action::Nothing
        },
        Input::Released(button) => if pointer.pressed_at is None {
            key_action(button)
        } else {
            Action::Nothing
        },
        Input::Moved(position) => match pointer.pressed_at {
            Some(start) => if start != position {
                Action::Preview(start, position)
            } else {
                Action::Nothing
            },
            None => Action::Nothing,
        },
    }
}

/// Tells what a key asks for.
fn action_of_key(button: Button) -> (action: Action)
    ensures
        action == key_action(button),
{
    match button {
        Button::Left => Action::StepLeft,
        Button::Right => Action::StepRight,
        Button::Up => Action::StepUp,
        Button::Down => Action::StepDown,
        Button::Z => Action::ZoomIn,
        Button::A => Action::ZoomOut,
        Button::X => Action::Sharpen,
        Button::S => Action::Unsharpen,
        Button::Backspace => Action::Undo,
        Button::Q => Action::Quit,
        Button::F1 => Action::ShowInfo,
        Button::F2 => Action::Audit,
        _ => Action::Nothing,
    }
}

impl Pointer {
    /// A pointer at `position` with no button held.
    pub fn new(position: (u32, u32)) -> (pointer: Pointer)
        ensures
            pointer == (Pointer { position, pressed_at: None }),
    {
        Pointer { position, pressed_at: None }
    }

    /// Takes an input and tells the pointer afterwards and what is to be
    /// done.
    ///
    /// Pressing the left button starts a gesture at the pointer. Releasing it
    /// ends the gesture: at the same pixel it was a click, which recentres
    /// there; elsewhere it was a drag, which selects the rectangle between
    /// the two pixels. Moving the pointer during a gesture asks for a preview
    /// of that rectangle. Keys and the right button count only while no
    /// gesture is under way, and only on release.
    pub fn step(self, input: Input) -> (out: (Pointer, Action))
        ensures
            out.0 == next_pointer(self, input),
            out.1 == action_for(self, input),
    {
        match input {
            Input::Pressed(button) => match button {
                Button::MouseLeft => (
                    Pointer { position: self.position, pressed_at: Some(self.position) },
                    Action::Nothing,
                ),
                _ => (self, Action::Nothing),
            },
            Input::Released(button) => match button {
                Button::MouseLeft => {
                    let released = Pointer { position: self.position, pressed_at: None };
                    match self.pressed_at {
                        Some(start) => if start.0 == self.position.0 && start.1
                            == self.position.1 {
                            (released, Action::CenterOn(start))
                        } else {
                            (released, Action::ZoomBox(start, self.position))
                        },
                        None => (released, Action::Nothing),
                    }
                },
                Button::MouseRight => match self.pressed_at {
                    None => (self, Action::CenterAndZoomOut(self.position)),
                    Some(_) => (self, Action::Nothing),
                },
                _ => match self.pressed_at {
                    None => (self, action_of_key(button)),
                    Some(_) => (self, Action::Nothing),
                },
            },
            Input::Moved(position) => {
                let moved = Pointer { position, pressed_at: self.pressed_at };
                match self.pressed_at {
                    Some(start) => if start.0 != position.0 || start.1 != position.1 {
                        (moved, Action::Preview(start, position))
                    } else {
                        (moved, Action::Nothing)
                    },
                    None => (moved, Action::Nothing),
                }
            },
        }
    }
}

/// Pressing and releasing the left button without moving in between is a
/// click: it recentres on the pixel under the pointer and ends the gesture.
pub proof fn lemma_click_recentres(pointer: Pointer)
    ensures
        ({
            let down = next_pointer(pointer, Input::Pressed(Button::MouseLeft));
            &&& action_for(down, Input::Released(Button::MouseLeft)) == Action::CenterOn(
                pointer.position,
            )
            &&& next_pointer(down, Input::Released(Button::MouseLeft)).pressed_at is None
        }),
{
}

/// Pressing the left button, moving to another pixel and releasing is a
/// drag: the move asks for a preview and the release for the zoom box, both
/// from the pixel where the button went down to the pixel where the pointer
/// is.
pub proof fn lemma_drag_selects(pointer: Pointer, target: (u32, u32))
    requires
        target != pointer.position,
    ensures
        ({
            let down = next_pointer(pointer, Input::Pressed(Button::MouseLeft));
            let moved = next_pointer(down, Input::Moved(target));
            &&& action_for(down, Input::Moved(target)) == Action::Preview(pointer.position, target)
            &&& action_for(moved, Input::Released(Button::MouseLeft)) == Action::ZoomBox(
                pointer.position,
                target,
            )
            &&& next_pointer(moved, Input::Released(Button::MouseLeft)) == (Pointer {
                position: target,
                pressed_at: None,
            })
        }),
{
}

/// While the left button is held, keys and the right button do nothing, and
/// no input but the release of the left button ends the gesture.
pub proof fn lemma_gesture_shuts_out_keys(pointer: Pointer, input: Input)
    requires
        pointer.pressed_at is Some,
        input != Input::Released(Button::MouseLeft),
    ensures
        next_pointer(pointer, input).pressed_at is Some,
        input is Released ==> action_for(pointer, input) == Action::Nothing,
        input is Pressed ==> action_for(pointer, input) == Action::Nothing,
{
}

/// Only a move changes where the pointer is, and only the left button
/// changes whether a gesture is under way.
pub proof fn lemma_pointer_frame(pointer: Pointer, input: Input)
    ensures
        !(input is Moved) ==> next_pointer(pointer, input).position == pointer.position,
        input != Input::Pressed(Button::MouseLeft) && input != Input::Released(Button::MouseLeft)
            ==> next_pointer(pointer, input).pressed_at == pointer.pressed_at,
{
}

} // verus!
