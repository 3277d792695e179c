//! The instruction synchronizer's decision.
//!
//! Instructions live in a local text file named by the configuration.
//! When the file exists, its full text is pushed to the remote
//! assistant's instruction field — always, with no diffing, whether or
//! not the content changed. When it does not exist, that is
//! "instructions intentionally absent", not an error: nothing is
//! pushed. The driver reports whether a push happened.

use vstd::prelude::*;

verus! {

/// What synchronizing the instructions must do.
#[derive(Debug, PartialEq, Eq, Structural)]
pub enum InstructionSync {
    /// The instructions file exists: read its full text and overwrite
    /// the remote instruction field with it.
    Push,
    /// The instructions file does not exist: push nothing and report
    /// that no instructions were uploaded.
    Skip,
}

/// Decides whether the instructions are pushed, from whether the
/// instructions file exists. The driver's upload operation returns
/// `true` exactly when the decision is `Push`.
pub fn plan_instruction_sync(instructions_file_exists: bool) -> (r: InstructionSync)
    ensures
        r is Push <==> instructions_file_exists,
{
    if instructions_file_exists {
        InstructionSync::Push
    } else {
        InstructionSync::Skip
    }
}

} // verus!
