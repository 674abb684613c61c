//! What is known of an owned Pi process.
use vstd::prelude::*;
use vstd::string::*;

verus! {

/// Which operating-system process a run owns.
#[derive(Clone, Copy, Debug, PartialEq, Eq, Structural)]
pub struct PiProcessIdentity {
    pub pid: Option<u32>,
}

/// The last that a process wrote to its standard error.
#[derive(Clone, Debug, PartialEq, Eq)]
pub struct PiProcessDiagnostics {
    pub stderr_tail: String,
    pub stderr_dropped_bytes: u64,
}

} // verus!
