//! Physical key codes and the logical keys and commands they are bound to.

use vstd::prelude::*;

verus! {

/// Identifier of a physical key position, as the host reports it.
///
/// The number is the host's own; this library only looks it up.
#[derive(Clone, Copy, Debug, PartialEq, Eq, Hash)]
pub struct PhysicalKeyCode(pub i32);

impl PhysicalKeyCode {
    /// The host's number for this key position.
    pub open spec fn number(self) -> int {
        self.0 as int
    }
}

/// A key of the emulated machine's 40-key keyboard matrix.
#[derive(Clone, Copy, Debug, PartialEq, Eq, Hash)]
pub enum MachineKey {
    Shift, Z, X, C, V,
    A, S, D, F, G,
    Q, W, E, R, T,
    N1, N2, N3, N4, N5,
    N0, N9, N8, N7, N6,
    P, O, I, U, Y,
    Enter, L, K, J, H,
    Space, SymShift, M, N, B,
}

/// A switch of the emulated joystick.
#[derive(Clone, Copy, Debug, PartialEq, Eq, Hash)]
pub enum PeripheralKey {
    Right,
    Left,
    Down,
    Up,
    Fire,
}

/// How fast the emulation is asked to run.
#[derive(Clone, Copy, Debug, PartialEq, Eq, Hash)]
pub enum SpeedSetting {
    /// A fixed multiple of the machine's real speed.
    Fixed(usize),
    /// As fast as the host allows.
    Max,
}

/// A control directive outside the emulated machine: it has no "held" state
/// and is issued when its key goes down.
#[derive(Clone, Copy, Debug, PartialEq, Eq, Hash)]
pub enum MetaCommand {
    ChangeSpeed(SpeedSetting),
    ToggleDebugOverlay,
    RequestTapeInsert,
    RequestTapeStop,
}

} // verus!
