//! A configurable keyboard-shortcut engine for a windowing front end.
//!
//! The engine tracks which keys are held, turns modifier flags into a modifier
//! set, loads a shortcut table from a KDL configuration document and matches
//! the live input state against the configured key combinations.

pub mod dispatch;
pub mod document;
pub mod key;
pub mod key_combo;
pub mod key_state;
pub mod modifier;
pub mod screen;
pub mod shortcuts;
pub mod token;
