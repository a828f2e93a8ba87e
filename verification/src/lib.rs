//! Core of a headless terminal emulator: the screen model with scrollback
//! and damage tracking, the VT interpreter that drives it, the wire codec
//! of the display server, and the decisions of the event loop.
pub mod le;
pub mod cell;
pub mod region;
pub mod color_table;
pub mod msg;
pub mod screen;
pub mod client;
pub mod decoder;
pub mod vte_actor;
pub mod key;
pub mod ansiwrap;
