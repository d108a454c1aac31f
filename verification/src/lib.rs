//! Translation of raw host input signals into the events that drive an
//! emulated home computer.
//!
//! The host reports key transitions by physical key code, quit requests and
//! dropped files. Three binding tables (machine keys, peripheral keys, meta
//! commands) decide which event, if any, each signal becomes.

pub mod bindings;
pub mod event;
pub mod keys;
pub mod laws;
pub mod scancode;
pub mod translator;

pub use bindings::KeyBindings;
pub use event::{DomainEvent, RawInputSignal};
pub use keys::{MachineKey, MetaCommand, PeripheralKey, PhysicalKeyCode, SpeedSetting};
pub use translator::EventTranslator;
