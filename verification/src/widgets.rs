//! State of the reusable interface elements.

pub mod menu;

pub use menu::MenuState;
