//! Platform-agnostic core of a desktop windowing toolkit: hotkey identity and matching, the
//! hotkey registry, the menu builder, and the bridge that turns a menu description into native
//! construction steps and routes native activations back as menu events.
use vstd::prelude::*;

pub mod hotkey;
pub mod ime;
pub mod menu;
pub mod menu_bridge;
pub mod platform;
pub mod system_tray;

verus! {

} // verus!
