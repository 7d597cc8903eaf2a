use vstd::prelude::*;
use crate::error::VmError;
use crate::instruction::Instruction;

verus! {

/// The check a program passes before it runs.
pub struct Verifier;

impl Verifier {
    /// Accepts every program whose opcodes all belong to the known set; as
    /// `Opcode` is a closed enumeration, that is every program. The machine
    /// stays robust against any program whether or not it passed.
    pub fn verify(_instructions: &[Instruction]) -> (r: Result<(), VmError>)
        ensures
            r is Ok,
    {
        Ok(())
    }
}

} // verus!
