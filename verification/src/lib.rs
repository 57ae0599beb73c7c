//! Kana drill: the page state machine and the study-session engine of a
//! terminal flash-card trainer, with machine-checked contracts.
//!
//! The library holds everything that decides: which page is live, what a key
//! press does to it, how a session walks through its symbols, what counts as
//! a right answer, how the clock adds up. It draws nothing and reads no
//! file; the program around it owns the terminal and the settings file.
//!
//! - [`models`]: the symbols, the answers accepted for them, and study plans;
//! - [`session`]: the session as a value, its step function and its laws;
//! - [`timer`]: the session clock;
//! - [`input`] and [`key`]: the answer field and the key presses;
//! - [`pages`] and [`app`]: the four pages and the shell that holds one of
//!   them;
//! - [`handler`]: the router from key presses to pages;
//! - [`config`]: the settings;
//! - [`text`] and [`widgets`]: numbers as text, and the state of the menu.

pub mod app;
pub mod config;
pub mod handler;
pub mod input;
pub mod key;
pub mod models;
pub mod pages;
pub mod session;
pub mod text;
pub mod timer;
pub mod widgets;
