//! What comes in from the host and what goes out to the emulator.

use vstd::prelude::*;
use crate::keys::{MachineKey, MetaCommand, PeripheralKey, PhysicalKeyCode, SpeedSetting};

verus! {

/// One occurrence reported by the host's input source.
#[derive(Debug, PartialEq, Eq)]
pub enum RawInputSignal {
    /// The user asked to close the application.
    QuitRequested,
    /// A key went down (`pressed`) or up. The host may fail to resolve the
    /// key's position, in which case `code` is `None`.
    KeyTransition { code: Option<PhysicalKeyCode>, pressed: bool },
    /// A file was dropped onto the window.
    FileDropped { path: String },
    /// Anything else; never produces an event.
    Other,
}

/// One event for the emulator's main loop.
#[derive(Debug, PartialEq, Eq)]
pub enum DomainEvent {
    /// Terminate the application.
    Exit,
    /// A key of the emulated keyboard changed state.
    MachineKey(MachineKey, bool),
    /// A switch of the emulated joystick changed state.
    PeripheralKey(PeripheralKey, bool),
    /// Run the emulation at another speed.
    ChangeSpeed(SpeedSetting),
    ToggleDebugOverlay,
    RequestTapeInsert,
    RequestTapeStop,
    /// Open the file at this path.
    OpenFile(String),
}

impl MetaCommand {
    /// The event that carries this command to the emulator.
    pub open spec fn event_spec(self) -> DomainEvent {
        match self {
            MetaCommand::ChangeSpeed(speed) => DomainEvent::ChangeSpeed(speed),
            MetaCommand::ToggleDebugOverlay => DomainEvent::ToggleDebugOverlay,
            MetaCommand::RequestTapeInsert => DomainEvent::RequestTapeInsert,
            MetaCommand::RequestTapeStop => DomainEvent::RequestTapeStop,
        }
    }

    /// The event that carries this command to the emulator.
    pub fn event(self) -> (ev: DomainEvent)
        ensures
            ev == self.event_spec(),
    {
        match self {
            MetaCommand::ChangeSpeed(speed) => DomainEvent::ChangeSpeed(speed),
            MetaCommand::ToggleDebugOverlay => DomainEvent::ToggleDebugOverlay,
            MetaCommand::RequestTapeInsert => DomainEvent::RequestTapeInsert,
            MetaCommand::RequestTapeStop => DomainEvent::RequestTapeStop,
        }
    }
}

} // verus!
