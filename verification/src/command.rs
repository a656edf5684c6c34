//! The values exchanged with the external orchestration CLI: what to launch,
//! and what a finished launch left behind.

use vstd::prelude::*;

verus! {

/// One invocation of an external command: the executable to launch, its
/// arguments in order, and the directory it must run in. Immutable once
/// built; a fresh one is built for every call.
pub struct CommandInvocation {
    pub executable: String,
    pub args: Vec<String>,
    pub working_dir: String,
}

/// What a finished subprocess left behind: whether it exited successfully,
/// and everything it wrote to its standard output and standard error.
pub struct CommandResult {
    pub success: bool,
    pub stdout: Vec<u8>,
    pub stderr: Vec<u8>,
}

} // verus!
