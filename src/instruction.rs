use vstd::prelude::*;
use crate::opcode::Opcode;

verus! {

/// An operation together with its immediate operand bytes.
#[derive(Debug, Clone)]
pub struct Instruction {
    pub opcode: Opcode,
    pub operands: Vec<u8>,
}

/// The mathematical value of an instruction.
pub struct InstrView {
    pub opcode: Opcode,
    pub operands: Seq<u8>,
}

impl View for Instruction {
    type V = InstrView;

    open spec fn view(&self) -> InstrView {
        InstrView { opcode: self.opcode, operands: self.operands@ }
    }
}

/// The value of a whole program.
pub open spec fn program_view(p: Seq<Instruction>) -> Seq<InstrView> {
    p.map_values(|i: Instruction| i@)
}

} // verus!
