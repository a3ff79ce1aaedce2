//! Decoding of raw input events into discrete commands.
//!
//! A keyboard or gamepad hands the process raw events as plain numbers: an
//! event type, a key code and a value (1 for press, 0 for release). The
//! decoders here turn those numbers into [`InputEvent`]s. The key codes are
//! the Linux input event codes, which is what such devices report.

use vstd::prelude::*;

verus! {

/// A direction of movement on the grid.
#[derive(Debug, Clone, Copy, PartialEq, Eq, Structural)]
pub enum Direction {
    Up,
    Down,
    Left,
    Right,
}

/// A discrete command decoded from an input device.
#[derive(Debug, Clone, Copy, PartialEq, Eq, Structural)]
pub enum InputEvent {
    Move { direction: Direction, dash: bool },
    Click,
    Quit,
}

/// Event type of key presses and releases (`EV_KEY`).
pub const EVENT_TYPE_KEY: u16 = 1;

/// Key code of the escape key.
pub const KEY_CODE_ESC: u16 = 1;

/// Key code of the left shift key.
pub const KEY_CODE_LEFTSHIFT: u16 = 42;

/// Key code of the right shift key.
pub const KEY_CODE_RIGHTSHIFT: u16 = 54;

/// Key code of the space bar.
pub const KEY_CODE_SPACE: u16 = 57;

/// Key code of the up arrow.
pub const KEY_CODE_UP: u16 = 103;

/// Key code of the left arrow.
pub const KEY_CODE_LEFT: u16 = 105;

/// Key code of the right arrow.
pub const KEY_CODE_RIGHT: u16 = 106;

/// Key code of the down arrow.
pub const KEY_CODE_DOWN: u16 = 108;

/// Key code of a gamepad's south button.
pub const BTN_CODE_A: u16 = 304;

/// Key code of a gamepad's start button.
pub const BTN_CODE_START: u16 = 315;

/// The part of the keyboard state the decoder reads back: whether each shift
/// key is currently held. Holding shift turns an arrow press into a dash.
#[derive(Debug, Clone, Copy, PartialEq, Eq, Structural)]
pub struct KeyTracker {
    pub left_shift: bool,
    pub right_shift: bool,
}

/// The tracker after a raw keyboard event: a press or release of a shift key
/// records the new state of that key; everything else leaves it unchanged.
pub open spec fn tracker_after(t: KeyTracker, event_type: u16, code: u16, value: i32) -> KeyTracker {
    if event_type == EVENT_TYPE_KEY && (value == 1 || value == 0) {
        if code == KEY_CODE_LEFTSHIFT {
            KeyTracker { left_shift: value == 1, ..t }
        } else if code == KEY_CODE_RIGHTSHIFT {
            KeyTracker { right_shift: value == 1, ..t }
        } else {
            t
        }
    } else {
        t
    }
}

/// The command a raw keyboard event decodes to, given the keyboard state `t`
/// after the event itself was recorded: an arrow press moves (dashes while a
/// shift key is held), space clicks, escape quits; everything else, and every
/// release, decodes to nothing.
pub open spec fn keyboard_decode(t: KeyTracker, event_type: u16, code: u16, value: i32) -> Option<
    InputEvent,
> {
    if event_type != EVENT_TYPE_KEY || value != 1 {
        None
    } else {
        let dash = t.left_shift || t.right_shift;
        if code == KEY_CODE_UP {
            Some(InputEvent::Move { direction: Direction::Up, dash })
        } else if code == KEY_CODE_DOWN {
            Some(InputEvent::Move { direction: Direction::Down, dash })
        } else if code == KEY_CODE_LEFT {
            Some(InputEvent::Move { direction: Direction::Left, dash })
        } else if code == KEY_CODE_RIGHT {
            Some(InputEvent::Move { direction: Direction::Right, dash })
        } else if code == KEY_CODE_SPACE {
            Some(InputEvent::Click)
        } else if code == KEY_CODE_ESC {
            Some(InputEvent::Quit)
        } else {
            None
        }
    }
}

/// The command a raw gamepad event decodes to: a press of the south button
/// clicks, a press of start quits; everything else decodes to nothing.
pub open spec fn gamepad_decode(event_type: u16, code: u16, value: i32) -> Option<InputEvent> {
    if event_type == EVENT_TYPE_KEY && value == 1 {
        if code == BTN_CODE_A {
            Some(InputEvent::Click)
        } else if code == BTN_CODE_START {
            Some(InputEvent::Quit)
        } else {
            None
        }
    } else {
        None
    }
}

impl KeyTracker {
    /// A fresh tracker: no key held.
    pub fn new() -> (t: KeyTracker)
        ensures
            !t.left_shift,
            !t.right_shift,
    {
        KeyTracker { left_shift: false, right_shift: false }
    }
}

/// Decodes one raw keyboard event, updating the shift state first so that the
/// event's own press or release of shift is already in force.
pub fn decode_keyboard_event(
    tracker: &mut KeyTracker,
    event_type: u16,
    code: u16,
    value: i32,
) -> (r: Option<InputEvent>)
    ensures
        *final(tracker) == tracker_after(*old(tracker), event_type, code, value),
        r == keyboard_decode(*final(tracker), event_type, code, value),
{
    if event_type != EVENT_TYPE_KEY {
        return None;
    }
    let pressed = value == 1;
    let released = value == 0;
    if pressed || released {
        if code == KEY_CODE_LEFTSHIFT {
            tracker.left_shift = pressed;
        } else if code == KEY_CODE_RIGHTSHIFT {
            tracker.right_shift = pressed;
        }
    }
    if !pressed {
        return None;
    }
    let dash = tracker.left_shift || tracker.right_shift;
    if code == KEY_CODE_UP {
        Some(InputEvent::Move { direction: Direction::Up, dash })
    } else if code == KEY_CODE_DOWN {
        Some(InputEvent::Move { direction: Direction::Down, dash })
    } else if code == KEY_CODE_LEFT {
        Some(InputEvent::Move { direction: Direction::Left, dash })
    } else if code == KEY_CODE_RIGHT {
        Some(InputEvent::Move { direction: Direction::Right, dash })
    } else if code == KEY_CODE_SPACE {
        Some(InputEvent::Click)
    } else if code == KEY_CODE_ESC {
        Some(InputEvent::Quit)
    } else {
        None
    }
}

/// Decodes one raw gamepad event.
pub fn decode_gamepad_event(event_type: u16, code: u16, value: i32) -> (r: Option<InputEvent>)
    ensures
        r == gamepad_decode(event_type, code, value),
{
    if event_type == EVENT_TYPE_KEY && value == 1 {
        if code == BTN_CODE_A {
            Some(InputEvent::Click)
        } else if code == BTN_CODE_START {
            Some(InputEvent::Quit)
        } else {
            None
        }
    } else {
        None
    }
}

} // verus!
