use vstd::prelude::*;

verus! {

/// The physical key of a keyboard event, as far as the engine tells keys apart.
#[derive(Debug, Clone, Copy, PartialEq, Eq, Structural)]
pub enum Key {
    /// The Escape key.
    Escape,
    /// Any other key with a known key code.
    Other,
}

/// What the engine reads of a window event that reaches its input handling.
#[derive(Debug, Clone, Copy, PartialEq, Eq, Structural)]
pub enum InputEvent {
    /// A key went down or up. `key` is `None` for a key without a known key code.
    Keyboard { key: Option<Key>, pressed: bool },
    /// Any other event.
    Other,
}

/// What the engine does with an input event.
#[derive(Debug, Clone, Copy, PartialEq, Eq, Structural)]
pub enum InputAction {
    /// Leave the event loop.
    Exit,
    /// Nothing.
    Ignore,
}

/// Whether the event is the Escape key going down.
pub open spec fn is_escape_press(event: InputEvent) -> bool {
    event == InputEvent::Keyboard { key: Some(Key::Escape), pressed: true }
}

/// Decides on an input event. `gui_consumed` tells whether the GUI took the event for
/// itself, in which case the engine does nothing with it; otherwise pressing Escape
/// leaves the event loop and every other event is ignored.
pub fn input_action(gui_consumed: bool, event: InputEvent) -> (action: InputAction)
    ensures
        action == (if !gui_consumed && is_escape_press(event) {
            InputAction::Exit
        } else {
            InputAction::Ignore
        }),
{
    if gui_consumed {
        return InputAction::Ignore;
    }
    match event {
        InputEvent::Keyboard { key: Some(Key::Escape), pressed: true } => InputAction::Exit,
        _ => InputAction::Ignore,
    }
}

} // verus!
