//! The ways a command can fail.

use vstd::prelude::*;

verus! {

/// Why a command ended without doing its work.
#[derive(Clone, Copy, Debug, PartialEq, Eq, Structural)]
pub enum Failure {
    /// No matching, initialized device showed up before polling gave up.
    DeviceNotFound,
    /// An argument has a value outside what its option accepts.
    InvalidArgument,
}

impl Failure {
    /// The process status that reports this failure. It is never zero, the
    /// status of success.
    pub fn exit_code(self) -> (code: i32)
        ensures
            code != 0,
            code == match self {
                Failure::DeviceNotFound => 1int,
                Failure::InvalidArgument => 2int,
            },
    {
        match self {
            Failure::DeviceNotFound => 1,
            Failure::InvalidArgument => 2,
        }
    }
}

} // verus!
