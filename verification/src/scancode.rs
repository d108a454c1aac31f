//! Numbers of the physical key positions that the standard bindings use.
//!
//! They follow the USB HID keyboard usage page, which is what the host's
//! scancodes are.

use vstd::prelude::*;

verus! {

/// Number of distinct key codes a host can report; valid codes are below it.
pub const CODE_SPACE: usize = 512;

pub const KEY_A: i32 = 4;
pub const KEY_B: i32 = 5;
pub const KEY_C: i32 = 6;
pub const KEY_D: i32 = 7;
pub const KEY_E: i32 = 8;
pub const KEY_F: i32 = 9;
pub const KEY_G: i32 = 10;
pub const KEY_H: i32 = 11;
pub const KEY_I: i32 = 12;
pub const KEY_J: i32 = 13;
pub const KEY_K: i32 = 14;
pub const KEY_L: i32 = 15;
pub const KEY_M: i32 = 16;
pub const KEY_N: i32 = 17;
pub const KEY_O: i32 = 18;
pub const KEY_P: i32 = 19;
pub const KEY_Q: i32 = 20;
pub const KEY_R: i32 = 21;
pub const KEY_S: i32 = 22;
pub const KEY_T: i32 = 23;
pub const KEY_U: i32 = 24;
pub const KEY_V: i32 = 25;
pub const KEY_W: i32 = 26;
pub const KEY_X: i32 = 27;
pub const KEY_Y: i32 = 28;
pub const KEY_Z: i32 = 29;
pub const KEY_1: i32 = 30;
pub const KEY_2: i32 = 31;
pub const KEY_3: i32 = 32;
pub const KEY_4: i32 = 33;
pub const KEY_5: i32 = 34;
pub const KEY_6: i32 = 35;
pub const KEY_7: i32 = 36;
pub const KEY_8: i32 = 37;
pub const KEY_9: i32 = 38;
pub const KEY_0: i32 = 39;
pub const KEY_RETURN: i32 = 40;
pub const KEY_SPACE: i32 = 44;
pub const KEY_F3: i32 = 60;
pub const KEY_F4: i32 = 61;
pub const KEY_F5: i32 = 62;
pub const KEY_F6: i32 = 63;
pub const KEY_INSERT: i32 = 73;
pub const KEY_DELETE: i32 = 76;
pub const KEY_RIGHT: i32 = 79;
pub const KEY_LEFT: i32 = 80;
pub const KEY_DOWN: i32 = 81;
pub const KEY_UP: i32 = 82;
pub const KEY_LCTRL: i32 = 224;
pub const KEY_LSHIFT: i32 = 225;
pub const KEY_LALT: i32 = 226;
pub const KEY_RCTRL: i32 = 228;
pub const KEY_RSHIFT: i32 = 229;
pub const KEY_RALT: i32 = 230;

} // verus!
