//! Navigation and settings logic of a three-step setup wizard.
//!
//! The wizard walks through a fixed sequence of screens, collects four path
//! settings, mirrors every edit into a configuration record, and tells its
//! host when that record has to be loaded from or saved to durable storage.
//! The host owns the window and the storage; this crate owns every decision.

pub mod config;
pub mod laws;
pub mod message;
pub mod screen;
pub mod wizard;
