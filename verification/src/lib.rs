//! A keyboard-driven selection menu for text terminals.
//!
//! The crate holds the menu's state, its navigation and rendering rules and
//! the decisions of its input loop. Reading keys and writing to the terminal
//! are left to the host program, which feeds events in and acts on the
//! [`Flow`] it gets back.

pub mod style;
pub mod keys;
pub mod menu;
pub mod flow;
pub mod render;
pub mod lemmas;

pub use console::{Color, Style};
pub use keys::{Event, Key, KeyAction};
pub use flow::{Flow, Poll};
pub use menu::{Menu, MenuView};
pub use render::Row;
pub use style::MenuOptions;
