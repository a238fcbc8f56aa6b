//! Core of a keyboard-driven tool for composing HTTP requests: editable text
//! fields with vim-style cursor motion, a panel/field router, and the
//! Normal/Insert/Visual key-handling state machine.

pub mod input;
pub mod key;
pub mod model;
pub mod text_wrapping;
pub mod tmux;
pub mod update;
