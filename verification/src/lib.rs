//! Decision logic of a screen colour picker: the colour model and its text
//! formats, the rule that tells the confirming click from every other pointer
//! event, the life cycle of the preview overlay, and the sampling session that
//! ties them together.
//!
//! Nothing here touches the screen, the pointer or the clipboard.  Every
//! function takes plain values that a host has read from the platform and
//! answers with the work the host has to carry out.

pub mod color;
pub mod win;
pub mod preview;
pub mod watcher;
pub mod session;
