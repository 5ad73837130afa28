//! Interaction core of a keyboard-driven application launcher.
//!
//! The crate models the session state, the selection cursor, the dmenu
//! score filter, the keybind resolution chain, the after-action state
//! machine and the session reset lifecycle as one verified state machine.
//! A host event loop feeds it key presses, pointer motion and text
//! edits, and performs the outcome records it hands back.

pub mod actions;
pub mod binds;
pub mod color;
pub mod dmenu;
pub mod launcher;
pub mod outcome;
pub mod search;
pub mod selection;
pub mod state;
pub mod strutil;
pub mod theme;
