//! What a key press asks of the system in keyboard debug mode: the space bar
//! simulates a motion event, `q` (either case) or Escape requests a shutdown.
use crate::events::DoorcamEvent;
use std::time::SystemTime;
use vstd::prelude::*;

verus! {

/// A key, as far as the keyboard handler tells keys apart.
#[derive(Debug, Clone, Copy, PartialEq, Eq)]
pub enum Key {
    /// A key that types a character.
    Char(char),
    /// The Escape key.
    Esc,
    /// Any other key.
    Other,
}

/// What a key asks for.
#[derive(Debug, Clone, Copy, PartialEq, Eq, Structural)]
pub enum KeyAction {
    /// Publish a simulated motion event.
    TriggerMotion,
    /// Publish a shutdown request and stop listening.
    Shutdown,
    /// Nothing.
    Ignore,
}

/// The action of a key event: only presses count (not releases or
/// repeats); space triggers motion, `q` or `Q` and Escape shut down.
pub open spec fn spec_key_action(key: Key, is_press: bool) -> KeyAction {
    if !is_press {
        KeyAction::Ignore
    } else {
        match key {
            Key::Char(c) => if c == ' ' {
                KeyAction::TriggerMotion
            } else if c == 'q' || c == 'Q' {
                KeyAction::Shutdown
            } else {
                KeyAction::Ignore
            },
            Key::Esc => KeyAction::Shutdown,
            Key::Other => KeyAction::Ignore,
        }
    }
}

/// The action of a key event.
pub fn key_action(key: Key, is_press: bool) -> (a: KeyAction)
    ensures
        a == spec_key_action(key, is_press),
{
    if !is_press {
        return KeyAction::Ignore;
    }
    match key {
        Key::Char(c) => if c == ' ' {
            KeyAction::TriggerMotion
        } else if c == 'q' || c == 'Q' {
            KeyAction::Shutdown
        } else {
            KeyAction::Ignore
        },
        Key::Esc => KeyAction::Shutdown,
        Key::Other => KeyAction::Ignore,
    }
}

/// The contour area of a simulated motion event, 5000.0, as the bits of an
/// `f64`.
pub const SIMULATED_MOTION_AREA_BITS: u64 = 0x40b3_8800_0000_0000;

/// Whether the handler keeps listening after an action: not after a
/// shutdown request.
pub fn keeps_listening(action: KeyAction) -> (b: bool)
    ensures
        b == (action != KeyAction::Shutdown),
{
    match action {
        KeyAction::Shutdown => false,
        _ => true,
    }
}

/// The event that an action publishes, stamped `timestamp`: a motion of the
/// simulated area, or a shutdown request from the user; none when ignored.
pub fn key_event(action: KeyAction, timestamp: SystemTime) -> (e: Option<DoorcamEvent>)
    ensures
        action == KeyAction::TriggerMotion ==> e == Some(
            DoorcamEvent::MotionDetected { contour_area_bits: SIMULATED_MOTION_AREA_BITS, timestamp },
        ),
        action == KeyAction::Shutdown ==> (e matches Some(DoorcamEvent::ShutdownRequested { timestamp: t, reason })
            && t == timestamp && reason@ == "User requested via keyboard"@),
        action == KeyAction::Ignore ==> e is None,
{
    match action {
        KeyAction::TriggerMotion => Some(
            DoorcamEvent::MotionDetected { contour_area_bits: SIMULATED_MOTION_AREA_BITS, timestamp },
        ),
        KeyAction::Shutdown => Some(
            DoorcamEvent::ShutdownRequested {
                timestamp,
                reason: "User requested via keyboard".to_owned(),
            },
        ),
        KeyAction::Ignore => None,
    }
}


/// What key presses do: the space bar simulates a motion, `q`, `Q` and
/// Escape request a shutdown, any other key does nothing, and a release or
/// repeat of any key does nothing.
pub proof fn law_keys(key: Key, is_press: bool)
    ensures
        !is_press ==> spec_key_action(key, is_press) == KeyAction::Ignore,
        is_press && key == Key::Char(' ') ==> spec_key_action(key, is_press) == KeyAction::TriggerMotion,
        is_press && (key == Key::Char('q') || key == Key::Char('Q') || key == Key::Esc) ==> spec_key_action(
            key,
            is_press,
        ) == KeyAction::Shutdown,
        spec_key_action(key, is_press) == KeyAction::Shutdown ==> is_press && (key == Key::Char('q') || key
            == Key::Char('Q') || key == Key::Esc),
        spec_key_action(key, is_press) == KeyAction::TriggerMotion ==> is_press && key == Key::Char(' '),
{
}

} // verus!
