use vstd::prelude::*;

verus! {

/// The ways in which checking or running a program fails.
#[derive(Debug, Clone)]
pub enum VmError {
    /// An instruction outside the known set.
    InvalidOpcode,
    /// An instruction needed more operands than the stack held.
    StackUnderflow,
    /// The program was rejected before it ran.
    VerificationFailed(String),
}

} // verus!
