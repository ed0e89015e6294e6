//! A queueing clipboard: captures are collected in order and replayed one at a
//! time on later paste commands.
//!
//! The crate holds the deciding parts of such a tool: content digests and
//! duplicate suppression, the bitmap preview decoder, the queue, the shared
//! state with its capture and replay rules, and the hotkey state machine.
//! Reading and writing the operating system's clipboard, listening for keys
//! and drawing windows are left to the program that embeds it.

pub mod bitmap;
pub mod digest;
pub mod errors;
pub mod format;
pub mod hotkey;
pub mod monitor;
pub mod queue;
pub mod record;
pub mod state;
pub mod text;
