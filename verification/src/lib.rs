//! Decision logic of the Bootty terminal application shell.

pub mod text;
pub mod order;

pub mod command;
pub mod config;
pub mod chord;
pub mod copy_mode;
pub mod cursor;
pub mod cwd;
pub mod diagnostic;
pub mod ditch;
pub mod finder;
pub mod frame;
pub mod keybind;
pub mod fonts;
pub mod handoff;
pub mod layout;
pub mod mux_keys;
pub mod names;
pub mod overlay;
pub mod progress;
pub mod reload;
pub mod reattach;
pub mod selection;
pub mod sidebar;
pub mod space_set;
pub mod spaces;
pub mod toggles;
pub mod windows;
