//! Classification of one raw signal into at most one event.

use vstd::prelude::*;
use crate::bindings::KeyBindings;
use crate::event::{DomainEvent, RawInputSignal};
use crate::keys::PhysicalKeyCode;

verus! {

/// The event for a key transition.
///
/// Machine keys come first, joystick switches second, and both report
/// either edge. What is left is looked up among the meta commands, on the
/// press only: a release of anything else is dropped.
pub open spec fn classify_key(
    bindings: KeyBindings,
    code: Option<PhysicalKeyCode>,
    pressed: bool,
) -> Option<DomainEvent> {
    if let Some(key) = bindings.machine_key_of(code) {
        Some(DomainEvent::MachineKey(key, pressed))
    } else if let Some(key) = bindings.peripheral_key_of(code) {
        Some(DomainEvent::PeripheralKey(key, pressed))
    } else if !pressed {
        None
    } else if let Some(command) = bindings.meta_command_of(code) {
        Some(command.event_spec())
    } else {
        None
    }
}

/// The event, if any, that one raw signal becomes under `bindings`.
pub open spec fn classify(bindings: KeyBindings, signal: RawInputSignal) -> Option<DomainEvent> {
    match signal {
        RawInputSignal::QuitRequested => Some(DomainEvent::Exit),
        RawInputSignal::KeyTransition { code, pressed } => classify_key(bindings, code, pressed),
        RawInputSignal::FileDropped { path } => Some(DomainEvent::OpenFile(path)),
        RawInputSignal::Other => None,
    }
}

/// Turns raw signals into events, one at a time and without memory of
/// earlier signals.
pub struct EventTranslator {
    bindings: KeyBindings,
}

impl EventTranslator {
    /// The bindings that this translator consults.
    pub closed spec fn bindings(&self) -> KeyBindings {
        self.bindings
    }

    /// A translator with the standard bindings.
    pub fn new() -> (translator: EventTranslator)
        ensures
            translator.bindings().wf(),
            translator.bindings().is_standard(),
    {
        EventTranslator { bindings: KeyBindings::standard() }
    }

    /// The event for a key transition.
    pub fn translate_key(&self, code: Option<PhysicalKeyCode>, pressed: bool) -> (event: Option<
        DomainEvent,
    >)
        ensures
            event == classify_key(self.bindings(), code, pressed),
    {
        if let Some(key) = self.bindings.scancode_to_zxkey(code) {
            Some(DomainEvent::MachineKey(key, pressed))
        } else if let Some(key) = self.bindings.scancode_to_joy(code) {
            Some(DomainEvent::PeripheralKey(key, pressed))
        } else if !pressed {
            None
        } else if let Some(command) = self.bindings.scancode_to_command(code) {
            Some(command.event())
        } else {
            None
        }
    }

    /// The event, if any, for one raw signal.
    pub fn translate(&self, signal: RawInputSignal) -> (event: Option<DomainEvent>)
        ensures
            event == classify(self.bindings(), signal),
    {
        match signal {
            RawInputSignal::QuitRequested => Some(DomainEvent::Exit),
            RawInputSignal::KeyTransition { code, pressed } => self.translate_key(code, pressed),
            RawInputSignal::FileDropped { path } => Some(DomainEvent::OpenFile(path)),
            RawInputSignal::Other => None,
        }
    }

    /// The event for what one poll of the host returned: nothing when the
    /// host had no signal pending, else what `translate` gives.
    pub fn pop_event(&self, polled: Option<RawInputSignal>) -> (event: Option<DomainEvent>)
        ensures
            event == match polled {
                Some(signal) => classify(self.bindings(), signal),
                None => None,
            },
    {
        match polled {
            Some(signal) => self.translate(signal),
            None => None,
        }
    }
}

} // verus!
