//! The sinks and what they share.

use vstd::prelude::*;

pub mod console;
pub mod file;
pub mod partitioned_file;
pub mod util;

verus! {

/// The kinds of event that a sink accepts.
#[derive(Debug, Clone, Copy, PartialEq, Eq, Structural)]
pub enum DataType {
    Any,
    Log,
    Metric,
}

} // verus!
