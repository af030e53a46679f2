//! Keys, key bindings and the keymap.
pub mod keymap;

pub use keymap::{KeyBinding, KeyCode, KeyEvent, KeyModifiers, Keymap};
