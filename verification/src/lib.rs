//! A status-bar cat animation widget, split into a verified core and a thin
//! host-facing shell.
//!
//! The core decides everything the widget does: which sprite frame the
//! animation shows at a given clock time, how a mouse click toggles the
//! animation on and off, and when the periodic update task keeps running or
//! stops itself. The shell (outside this crate's verified code) only decodes
//! the embedded images, builds the widget tree, and forwards clock times and
//! clicks to the core.

pub mod assets;
pub mod driver;
pub mod frame;
