//! What the display controller does with an event, and the values written
//! to the backlight's power file.
use crate::events::DoorcamEvent;
use vstd::prelude::*;

verus! {

/// What the display does in response to an event.
#[derive(Debug, Clone, Copy, PartialEq, Eq, Structural)]
pub enum DisplayCommand {
    /// Turn the display on for this many seconds (restarting the timer).
    Activate { seconds: u32 },
    /// Turn the display off now.
    Deactivate,
    /// Nothing.
    Ignore,
}

/// The command for an event: motion and touch turn the display on for the
/// activation period, an activation request for its own duration, a
/// deactivation request turns it off; other events change nothing.
pub open spec fn spec_display_command(event: DoorcamEvent, activation_period_seconds: u32) -> DisplayCommand {
    match event {
        DoorcamEvent::MotionDetected { .. } => DisplayCommand::Activate { seconds: activation_period_seconds },
        DoorcamEvent::TouchDetected { .. } => DisplayCommand::Activate { seconds: activation_period_seconds },
        DoorcamEvent::DisplayActivate { duration_seconds, .. } => DisplayCommand::Activate {
            seconds: duration_seconds,
        },
        DoorcamEvent::DisplayDeactivate { .. } => DisplayCommand::Deactivate,
        _ => DisplayCommand::Ignore,
    }
}

/// The command for an event.
pub fn display_command(event: &DoorcamEvent, activation_period_seconds: u32) -> (c: DisplayCommand)
    ensures
        c == spec_display_command(*event, activation_period_seconds),
{
    match event {
        DoorcamEvent::MotionDetected { .. } => DisplayCommand::Activate { seconds: activation_period_seconds },
        DoorcamEvent::TouchDetected { .. } => DisplayCommand::Activate { seconds: activation_period_seconds },
        DoorcamEvent::DisplayActivate { duration_seconds, .. } => DisplayCommand::Activate {
            seconds: *duration_seconds,
        },
        DoorcamEvent::DisplayDeactivate { .. } => DisplayCommand::Deactivate,
        _ => DisplayCommand::Ignore,
    }
}

/// The text written to the backlight's `bl_power` file: "0" powers it on,
/// "1" off.
pub fn backlight_power_value(enabled: bool) -> (s: &'static str)
    ensures
        enabled ==> s@ == "0"@,
        !enabled ==> s@ == "1"@,
{
    if enabled {
        "0"
    } else {
        "1"
    }
}


/// What the display does with events: motion and touch turn it on for the
/// activation period, an activation request for its own duration, a
/// deactivation request turns it off, and no other event changes it.
pub proof fn law_display_follows_events(event: DoorcamEvent, period: u32)
    ensures
        (event is MotionDetected || event is TouchDetected) ==> (spec_display_command(event, period)
            == (DisplayCommand::Activate { seconds: period })),
        (event matches DoorcamEvent::DisplayActivate { duration_seconds, .. }) ==> (spec_display_command(
            event,
            period,
        ) == (DisplayCommand::Activate { seconds: event->DisplayActivate_duration_seconds })),
        (event is DisplayDeactivate) <==> (spec_display_command(event, period) == DisplayCommand::Deactivate),
        (!(event is MotionDetected || event is TouchDetected || event is DisplayActivate || event is DisplayDeactivate))
            ==> (spec_display_command(event, period) == DisplayCommand::Ignore),
{
}

} // verus!
