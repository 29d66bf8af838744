//! Sinks that take structured events and write them to files.
//!
//! An event is encoded as a line ([`sinks::util::encoding`]) and handed to a
//! file sink ([`sinks::file`]), which opens its file on the first write and
//! goes back to the unopened state when the file fails. The partitioned
//! file sink ([`sinks::partitioned_file`]) renders a key from each event
//! with a template ([`template`]) and keeps one file sink for each key.
//!
//! The sinks decide and never block: what has to be done on a file they
//! hand to their driver as a step, and they take in what came of it.

pub mod event;
pub mod json;
pub mod payload;
pub mod sinks;
pub mod template;
pub mod text;
