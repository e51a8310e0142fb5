//! The state behind the two windows: one takes new text, one finds old text.

pub mod add_window;
pub mod get_window;

pub use add_window::{AddWindowInput, AddWindowState};
pub use get_window::{GetWindowInput, GetWindowModel, GetWindowState};
