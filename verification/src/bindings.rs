//! The three binding tables: which logical key or command, if any, each
//! physical key code stands for.
//!
//! A table is data: one slot per key code, empty where the code is unbound.

use vstd::prelude::*;
use crate::keys::{MachineKey, MetaCommand, PeripheralKey, PhysicalKeyCode, SpeedSetting};
use crate::scancode::{
    CODE_SPACE, KEY_0, KEY_1, KEY_2, KEY_3, KEY_4, KEY_5, KEY_6, KEY_7, KEY_8, KEY_9, KEY_A,
    KEY_B, KEY_C, KEY_D, KEY_DELETE, KEY_DOWN, KEY_E, KEY_F, KEY_F3, KEY_F4, KEY_F5, KEY_F6,
    KEY_G, KEY_H, KEY_I, KEY_INSERT, KEY_J, KEY_K, KEY_L, KEY_LALT, KEY_LCTRL, KEY_LEFT,
    KEY_LSHIFT, KEY_M, KEY_N, KEY_O, KEY_P, KEY_Q, KEY_R, KEY_RALT, KEY_RCTRL, KEY_RETURN,
    KEY_RIGHT, KEY_RSHIFT, KEY_S, KEY_SPACE, KEY_T, KEY_U, KEY_UP, KEY_V, KEY_W, KEY_X,
    KEY_Y, KEY_Z,
};

verus! {

/// What a table of one slot per key code holds for `code`: codes outside
/// the table are unbound.
pub open spec fn slot<K>(table: Seq<Option<K>>, code: int) -> Option<K> {
    if 0 <= code < table.len() {
        table[code]
    } else {
        None
    }
}

/// The standard binding of key codes to keys of the emulated keyboard.
pub open spec fn standard_machine_key(code: int) -> Option<MachineKey> {
    if code == KEY_LSHIFT || code == KEY_RSHIFT {
        Some(MachineKey::Shift)
    } else if code == KEY_Z {
        Some(MachineKey::Z)
    } else if code == KEY_X {
        Some(MachineKey::X)
    } else if code == KEY_C {
        Some(MachineKey::C)
    } else if code == KEY_V {
        Some(MachineKey::V)
    } else if code == KEY_A {
        Some(MachineKey::A)
    } else if code == KEY_S {
        Some(MachineKey::S)
    } else if code == KEY_D {
        Some(MachineKey::D)
    } else if code == KEY_F {
        Some(MachineKey::F)
    } else if code == KEY_G {
        Some(MachineKey::G)
    } else if code == KEY_Q {
        Some(MachineKey::Q)
    } else if code == KEY_W {
        Some(MachineKey::W)
    } else if code == KEY_E {
        Some(MachineKey::E)
    } else if code == KEY_R {
        Some(MachineKey::R)
    } else if code == KEY_T {
        Some(MachineKey::T)
    } else if code == KEY_1 {
        Some(MachineKey::N1)
    } else if code == KEY_2 {
        Some(MachineKey::N2)
    } else if code == KEY_3 {
        Some(MachineKey::N3)
    } else if code == KEY_4 {
        Some(MachineKey::N4)
    } else if code == KEY_5 {
        Some(MachineKey::N5)
    } else if code == KEY_0 {
        Some(MachineKey::N0)
    } else if code == KEY_9 {
        Some(MachineKey::N9)
    } else if code == KEY_8 {
        Some(MachineKey::N8)
    } else if code == KEY_7 {
        Some(MachineKey::N7)
    } else if code == KEY_6 {
        Some(MachineKey::N6)
    } else if code == KEY_P {
        Some(MachineKey::P)
    } else if code == KEY_O {
        Some(MachineKey::O)
    } else if code == KEY_I {
        Some(MachineKey::I)
    } else if code == KEY_U {
        Some(MachineKey::U)
    } else if code == KEY_Y {
        Some(MachineKey::Y)
    } else if code == KEY_RETURN {
        Some(MachineKey::Enter)
    } else if code == KEY_L {
        Some(MachineKey::L)
    } else if code == KEY_K {
        Some(MachineKey::K)
    } else if code == KEY_J {
        Some(MachineKey::J)
    } else if code == KEY_H {
        Some(MachineKey::H)
    } else if code == KEY_SPACE {
        Some(MachineKey::Space)
    } else if code == KEY_LCTRL || code == KEY_RCTRL {
        Some(MachineKey::SymShift)
    } else if code == KEY_M {
        Some(MachineKey::M)
    } else if code == KEY_N {
        Some(MachineKey::N)
    } else if code == KEY_B {
        Some(MachineKey::B)
    } else {
        None
    }
}

/// The standard binding of key codes to joystick switches.
pub open spec fn standard_peripheral_key(code: int) -> Option<PeripheralKey> {
    if code == KEY_LALT || code == KEY_RALT {
        Some(PeripheralKey::Fire)
    } else if code == KEY_UP {
        Some(PeripheralKey::Up)
    } else if code == KEY_DOWN {
        Some(PeripheralKey::Down)
    } else if code == KEY_LEFT {
        Some(PeripheralKey::Left)
    } else if code == KEY_RIGHT {
        Some(PeripheralKey::Right)
    } else {
        None
    }
}

/// The standard binding of key codes to meta commands.
pub open spec fn standard_meta_command(code: int) -> Option<MetaCommand> {
    if code == KEY_F3 {
        Some(MetaCommand::ChangeSpeed(SpeedSetting::Fixed(1)))
    } else if code == KEY_F4 {
        Some(MetaCommand::ChangeSpeed(SpeedSetting::Fixed(2)))
    } else if code == KEY_F5 {
        Some(MetaCommand::ChangeSpeed(SpeedSetting::Max))
    } else if code == KEY_F6 {
        Some(MetaCommand::ToggleDebugOverlay)
    } else if code == KEY_INSERT {
        Some(MetaCommand::RequestTapeInsert)
    } else if code == KEY_DELETE {
        Some(MetaCommand::RequestTapeStop)
    } else {
        None
    }
}

/// The binding tables that a translator consults.
pub struct KeyBindings {
    machine: Vec<Option<MachineKey>>,
    peripheral: Vec<Option<PeripheralKey>>,
    meta: Vec<Option<MetaCommand>>,
}

/// A table with every code unbound.
fn unbound_table<K>() -> (table: Vec<Option<K>>)
    ensures
        table@.len() == CODE_SPACE,
        forall|i: int| 0 <= i < table@.len() ==> table@[i] is None,
{
    let mut table: Vec<Option<K>> = Vec::new();
    while table.len() < CODE_SPACE
        invariant
            table@.len() <= CODE_SPACE,
            forall|i: int| 0 <= i < table@.len() ==> table@[i] is None,
        decreases CODE_SPACE - table@.len(),
    {
        table.push(None);
    }
    table
}

/// Binds `code` to `key`, replacing what the slot held.
fn bind<K>(table: &mut Vec<Option<K>>, code: i32, key: K)
    requires
        0 <= code < old(table)@.len(),
    ensures
        final(table)@ == old(table)@.update(code as int, Some(key)),
{
    table.set(code as usize, Some(key));
}

/// Reads the slot of `code`; an absent code is unbound.
fn lookup<K: Copy>(table: &Vec<Option<K>>, code: Option<PhysicalKeyCode>) -> (found: Option<K>)
    ensures
        found == match code {
            Some(c) => slot(table@, c.number()),
            None => None,
        },
{
    match code {
        None => None,
        Some(c) => {
            if c.0 >= 0 && (c.0 as usize) < table.len() {
                table[c.0 as usize]
            } else {
                None
            }
        },
    }
}

/// The table that holds the standard machine-key bindings.
fn standard_machine_table() -> (table: Vec<Option<MachineKey>>)
    ensures
        forall|code: int| slot(table@, code) == standard_machine_key(code),
{
    let mut table: Vec<Option<MachineKey>> = unbound_table();
    bind(&mut table, KEY_LSHIFT, MachineKey::Shift);
    bind(&mut table, KEY_RSHIFT, MachineKey::Shift);
    bind(&mut table, KEY_Z, MachineKey::Z);
    bind(&mut table, KEY_X, MachineKey::X);
    bind(&mut table, KEY_C, MachineKey::C);
    bind(&mut table, KEY_V, MachineKey::V);
    bind(&mut table, KEY_A, MachineKey::A);
    bind(&mut table, KEY_S, MachineKey::S);
    bind(&mut table, KEY_D, MachineKey::D);
    bind(&mut table, KEY_F, MachineKey::F);
    bind(&mut table, KEY_G, MachineKey::G);
    bind(&mut table, KEY_Q, MachineKey::Q);
    bind(&mut table, KEY_W, MachineKey::W);
    bind(&mut table, KEY_E, MachineKey::E);
    bind(&mut table, KEY_R, MachineKey::R);
    bind(&mut table, KEY_T, MachineKey::T);
    bind(&mut table, KEY_1, MachineKey::N1);
    bind(&mut table, KEY_2, MachineKey::N2);
    bind(&mut table, KEY_3, MachineKey::N3);
    bind(&mut table, KEY_4, MachineKey::N4);
    bind(&mut table, KEY_5, MachineKey::N5);
    bind(&mut table, KEY_0, MachineKey::N0);
    bind(&mut table, KEY_9, MachineKey::N9);
    bind(&mut table, KEY_8, MachineKey::N8);
    bind(&mut table, KEY_7, MachineKey::N7);
    bind(&mut table, KEY_6, MachineKey::N6);
    bind(&mut table, KEY_P, MachineKey::P);
    bind(&mut table, KEY_O, MachineKey::O);
    bind(&mut table, KEY_I, MachineKey::I);
    bind(&mut table, KEY_U, MachineKey::U);
    bind(&mut table, KEY_Y, MachineKey::Y);
    bind(&mut table, KEY_RETURN, MachineKey::Enter);
    bind(&mut table, KEY_L, MachineKey::L);
    bind(&mut table, KEY_K, MachineKey::K);
    bind(&mut table, KEY_J, MachineKey::J);
    bind(&mut table, KEY_H, MachineKey::H);
    bind(&mut table, KEY_SPACE, MachineKey::Space);
    bind(&mut table, KEY_LCTRL, MachineKey::SymShift);
    bind(&mut table, KEY_RCTRL, MachineKey::SymShift);
    bind(&mut table, KEY_M, MachineKey::M);
    bind(&mut table, KEY_N, MachineKey::N);
    bind(&mut table, KEY_B, MachineKey::B);
    table
}

/// The table that holds the standard joystick bindings.
fn standard_peripheral_table() -> (table: Vec<Option<PeripheralKey>>)
    ensures
        forall|code: int| slot(table@, code) == standard_peripheral_key(code),
{
    let mut table: Vec<Option<PeripheralKey>> = unbound_table();
    bind(&mut table, KEY_LALT, PeripheralKey::Fire);
    bind(&mut table, KEY_RALT, PeripheralKey::Fire);
    bind(&mut table, KEY_UP, PeripheralKey::Up);
    bind(&mut table, KEY_DOWN, PeripheralKey::Down);
    bind(&mut table, KEY_LEFT, PeripheralKey::Left);
    bind(&mut table, KEY_RIGHT, PeripheralKey::Right);
    table
}

/// The table that holds the standard meta-command bindings.
fn standard_meta_table() -> (table: Vec<Option<MetaCommand>>)
    ensures
        forall|code: int| slot(table@, code) == standard_meta_command(code),
{
    let mut table: Vec<Option<MetaCommand>> = unbound_table();
    bind(&mut table, KEY_F3, MetaCommand::ChangeSpeed(SpeedSetting::Fixed(1)));
    bind(&mut table, KEY_F4, MetaCommand::ChangeSpeed(SpeedSetting::Fixed(2)));
    bind(&mut table, KEY_F5, MetaCommand::ChangeSpeed(SpeedSetting::Max));
    bind(&mut table, KEY_F6, MetaCommand::ToggleDebugOverlay);
    bind(&mut table, KEY_INSERT, MetaCommand::RequestTapeInsert);
    bind(&mut table, KEY_DELETE, MetaCommand::RequestTapeStop);
    table
}

impl KeyBindings {
    /// The machine key bound to the key position numbered `code`.
    pub closed spec fn machine_key(&self, code: int) -> Option<MachineKey> {
        slot(self.machine@, code)
    }

    /// The joystick switch bound to the key position numbered `code`.
    pub closed spec fn peripheral_key(&self, code: int) -> Option<PeripheralKey> {
        slot(self.peripheral@, code)
    }

    /// The meta command bound to the key position numbered `code`.
    pub closed spec fn meta_command(&self, code: int) -> Option<MetaCommand> {
        slot(self.meta@, code)
    }

    /// No key position is both a machine key and a joystick switch.
    pub open spec fn wf(&self) -> bool {
        forall|code: int|
            !((#[trigger] self.machine_key(code)) is Some && self.peripheral_key(code) is Some)
    }

    /// These are the standard bindings.
    pub open spec fn is_standard(&self) -> bool {
        &&& forall|code: int| #[trigger] self.machine_key(code) == standard_machine_key(code)
        &&& forall|code: int| #[trigger]
            self.peripheral_key(code) == standard_peripheral_key(code)
        &&& forall|code: int| #[trigger] self.meta_command(code) == standard_meta_command(code)
    }

    /// The machine key that a reported code stands for; none for an absent code.
    pub open spec fn machine_key_of(&self, code: Option<PhysicalKeyCode>) -> Option<MachineKey> {
        match code {
            Some(c) => self.machine_key(c.number()),
            None => None,
        }
    }

    /// The joystick switch that a reported code stands for; none for an absent code.
    pub open spec fn peripheral_key_of(&self, code: Option<PhysicalKeyCode>) -> Option<
        PeripheralKey,
    > {
        match code {
            Some(c) => self.peripheral_key(c.number()),
            None => None,
        }
    }

    /// The meta command that a reported code stands for; none for an absent code.
    pub open spec fn meta_command_of(&self, code: Option<PhysicalKeyCode>) -> Option<MetaCommand> {
        match code {
            Some(c) => self.meta_command(c.number()),
            None => None,
        }
    }

    /// Builds the standard bindings.
    pub fn standard() -> (bindings: KeyBindings)
        ensures
            bindings.wf(),
            bindings.is_standard(),
    {
        let bindings = KeyBindings {
            machine: standard_machine_table(),
            peripheral: standard_peripheral_table(),
            meta: standard_meta_table(),
        };
        proof {
            lemma_standard_tables_disjoint();
        }
        bindings
    }

    /// Looks a reported code up among the machine keys.
    pub fn scancode_to_zxkey(&self, scancode: Option<PhysicalKeyCode>) -> (key: Option<MachineKey>)
        ensures
            key == self.machine_key_of(scancode),
    {
        lookup(&self.machine, scancode)
    }

    /// Looks a reported code up among the joystick switches.
    pub fn scancode_to_joy(&self, scancode: Option<PhysicalKeyCode>) -> (key: Option<PeripheralKey>)
        ensures
            key == self.peripheral_key_of(scancode),
    {
        lookup(&self.peripheral, scancode)
    }

    /// Looks a reported code up among the meta commands.
    pub fn scancode_to_command(&self, scancode: Option<PhysicalKeyCode>) -> (command: Option<
        MetaCommand,
    >)
        ensures
            command == self.meta_command_of(scancode),
    {
        lookup(&self.meta, scancode)
    }
}

/// In the standard bindings no key position is both a machine key and a
/// joystick switch.
pub proof fn lemma_standard_tables_disjoint()
    ensures
        forall|code: int|
            !((#[trigger] standard_machine_key(code)) is Some
                && standard_peripheral_key(code) is Some),
{
}

/// In the standard bindings a key position bound to a meta command is bound
/// to nothing else.
pub proof fn lemma_standard_meta_keys_unshared()
    ensures
        forall|code: int|
            (#[trigger] standard_meta_command(code)) is Some ==> standard_machine_key(code) is None
                && standard_peripheral_key(code) is None,
{
}

} // verus!
