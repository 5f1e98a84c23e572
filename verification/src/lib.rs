//! The rules of a small desktop shell, kept apart from the GUI host that runs
//! them: the greeting offered to the web view, the conversation with the host
//! by which a global shortcut shows or hides the main window, and the choice
//! of the window's backdrop by operating system.

pub mod greeting;
pub mod host;
pub mod laws;
pub mod platform;
pub mod toggle;
