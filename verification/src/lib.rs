//! Unattended backup of one directory: the rules that decide when a backup
//! fires, and the steps that turn an archived directory into an upload.
//!
//! The library takes no action by itself. A driver sleeps, waits for
//! filesystem notifications, reads the directory and talks to the object
//! store; after each of these it hands the outcome to the library, which
//! answers with the next thing to do.

pub mod kinds;
pub mod archive;
pub mod pipeline;
pub mod trigger;
pub mod job;
pub mod laws;
