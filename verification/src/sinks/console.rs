//! The console sink's configuration.

use crate::sinks::util::encoding::BasicEncoding;
use crate::sinks::DataType;
use vstd::prelude::*;

verus! {

/// The stream that the console sink writes to.
#[derive(Debug, Clone, Copy, PartialEq, Eq, Structural)]
pub enum Target {
    Stdout,
    Stderr,
}

impl Default for Target {
    fn default() -> (target: Target)
        ensures
            target == Target::Stdout,
    {
        Target::Stdout
    }
}

/// The configuration of a console sink.
#[derive(Debug)]
pub struct ConsoleSinkConfig {
    pub target: Target,
    pub encoding: Option<BasicEncoding>,
}

impl ConsoleSinkConfig {
    /// The console takes events of any kind.
    pub fn input_type(&self) -> (kind: DataType)
        ensures
            kind == DataType::Any,
    {
        DataType::Any
    }
}

} // verus!
