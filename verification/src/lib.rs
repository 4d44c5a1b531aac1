//! A counter shown in a terminal, driven by a reducer-style event loop.
//!
//! Key presses queue actions in a store, a fixed-rate tick applies them, and a
//! view builder turns the current state into text blocks with their places on
//! the screen. The modules hold the decisions of that loop; the terminal I/O
//! around them lives with the program that uses them.

pub mod app;
pub mod event;
pub mod layout;
pub mod store;
pub mod text;
pub mod view;
