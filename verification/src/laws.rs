//! What holds of the classification under any bindings.

use vstd::prelude::*;
use crate::bindings::{
    lemma_standard_meta_keys_unshared, standard_meta_command, KeyBindings,
};
use crate::event::{DomainEvent, RawInputSignal};
use crate::keys::{MachineKey, MetaCommand, PeripheralKey, PhysicalKeyCode};
use crate::translator::{classify, classify_key};

verus! {

/// The signal for key position `code` going down or up.
pub open spec fn key_signal(code: Option<PhysicalKeyCode>, pressed: bool) -> RawInputSignal {
    RawInputSignal::KeyTransition { code, pressed }
}

/// In well-formed bindings at most one of the machine-key table and the
/// joystick table binds a key position.
pub proof fn lemma_tables_disjoint(bindings: KeyBindings, code: int)
    requires
        bindings.wf(),
    ensures
        bindings.machine_key(code) is None || bindings.peripheral_key(code) is None,
{
}

/// A key position bound to a machine key reports both edges, each as that
/// machine key with the edge's state.
pub proof fn lemma_machine_key_both_edges(
    bindings: KeyBindings,
    code: PhysicalKeyCode,
    key: MachineKey,
)
    requires
        bindings.machine_key(code.number()) == Some(key),
    ensures
        classify(bindings, key_signal(Some(code), true)) == Some(DomainEvent::MachineKey(key, true)),
        classify(bindings, key_signal(Some(code), false)) == Some(
            DomainEvent::MachineKey(key, false),
        ),
{
}

/// In well-formed bindings a key position bound to a joystick switch
/// reports both edges, each as that switch with the edge's state.
pub proof fn lemma_peripheral_key_both_edges(
    bindings: KeyBindings,
    code: PhysicalKeyCode,
    key: PeripheralKey,
)
    requires
        bindings.wf(),
        bindings.peripheral_key(code.number()) == Some(key),
    ensures
        classify(bindings, key_signal(Some(code), true)) == Some(
            DomainEvent::PeripheralKey(key, true),
        ),
        classify(bindings, key_signal(Some(code), false)) == Some(
            DomainEvent::PeripheralKey(key, false),
        ),
{
}

/// The release of a key position that no table binds gives no event, and
/// so does its press.
pub proof fn lemma_unbound_key_silent(bindings: KeyBindings, code: PhysicalKeyCode)
    requires
        bindings.machine_key(code.number()) is None,
        bindings.peripheral_key(code.number()) is None,
        bindings.meta_command(code.number()) is None,
    ensures
        classify(bindings, key_signal(Some(code), false)) is None,
        classify(bindings, key_signal(Some(code), true)) is None,
{
}

/// A key position bound only to a meta command gives that command's event
/// when pressed and nothing when released.
pub proof fn lemma_meta_command_press_only(
    bindings: KeyBindings,
    code: PhysicalKeyCode,
    command: MetaCommand,
)
    requires
        bindings.machine_key(code.number()) is None,
        bindings.peripheral_key(code.number()) is None,
        bindings.meta_command(code.number()) == Some(command),
    ensures
        classify(bindings, key_signal(Some(code), true)) == Some(command.event_spec()),
        classify(bindings, key_signal(Some(code), false)) is None,
{
}

/// Under the standard bindings every key position that stands for a meta
/// command gives that command's event when pressed and nothing when
/// released.
pub proof fn lemma_standard_meta_command_press_only(
    bindings: KeyBindings,
    code: PhysicalKeyCode,
    command: MetaCommand,
)
    requires
        bindings.is_standard(),
        standard_meta_command(code.number()) == Some(command),
    ensures
        classify(bindings, key_signal(Some(code), true)) == Some(command.event_spec()),
        classify(bindings, key_signal(Some(code), false)) is None,
{
    lemma_standard_meta_keys_unshared();
    lemma_meta_command_press_only(bindings, code, command);
}

/// A transition without a key code gives no event, pressed or released.
pub proof fn lemma_absent_code_silent(bindings: KeyBindings, pressed: bool)
    ensures
        classify(bindings, key_signal(None, pressed)) is None,
{
}

/// A quit request gives `Exit` whatever the bindings are.
pub proof fn lemma_quit_gives_exit(bindings: KeyBindings)
    ensures
        classify(bindings, RawInputSignal::QuitRequested) == Some(DomainEvent::Exit),
{
}

/// A dropped file gives `OpenFile` with the very path that was dropped.
pub proof fn lemma_file_drop_keeps_path(bindings: KeyBindings, path: String)
    ensures
        classify(bindings, RawInputSignal::FileDropped { path }) == Some(
            DomainEvent::OpenFile(path),
        ),
{
}

/// A release gives either nothing or a key event with the released state:
/// never a command.
pub proof fn lemma_release_never_commands(bindings: KeyBindings, code: Option<PhysicalKeyCode>)
    ensures
        match classify_key(bindings, code, false) {
            None => true,
            Some(DomainEvent::MachineKey(_, pressed)) => !pressed,
            Some(DomainEvent::PeripheralKey(_, pressed)) => !pressed,
            Some(_) => false,
        },
{
}

} // verus!
