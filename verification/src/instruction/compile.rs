use vstd::prelude::*;

use crate::instruction::Instruction;
use crate::register::Width;

verus! {

impl Instruction {
    /// The byte frame this instruction encodes to: the opcode byte followed
    /// by a zero pad, a packed register byte, a register-and-count byte, or a
    /// destination nibble with a little-endian immediate, as the variant
    /// demands. The literal pseudo-op is its payload byte alone.
    pub open spec fn spec_compile(self) -> Seq<u8> {
        match self {
            Instruction::Nop | Instruction::Ret | Instruction::Cli => seq![
                self.spec_opcode(),
                0x00,
            ],
            Instruction::DB(_) => seq![self.spec_opcode()],
            Instruction::MovC2R(value, dest)
            | Instruction::AddC2R(value, dest)
            | Instruction::SubC2R(value, dest)
            | Instruction::AndC2R(value, dest)
            | Instruction::OrC2R(value, dest)
            | Instruction::CmpC2R(value, dest) => match value.spec_width() {
                Width::Byte => seq![
                    self.spec_opcode(),
                    dest.spec_compile_dest(),
                    value.spec_value_byte(0),
                    0x00,
                ],
                Width::Word => seq![
                    self.spec_opcode(),
                    dest.spec_compile_dest(),
                    value.spec_value_byte(0),
                    value.spec_value_byte(1),
                ],
            },
            Instruction::MovR2R(src, dest)
            | Instruction::MovM2R(src, dest)
            | Instruction::MovR2M(src, dest)
            | Instruction::AddR2R(src, dest)
            | Instruction::SubR2R(src, dest)
            | Instruction::AndR2R(src, dest)
            | Instruction::OrR2R(src, dest)
            | Instruction::CmpR2R(src, dest) => seq![
                self.spec_opcode(),
                src.spec_compile_with(dest),
            ],
            Instruction::Push(reg)
            | Instruction::Pop(reg)
            | Instruction::Not(reg)
            | Instruction::AJmp(reg)
            | Instruction::Jmp(reg)
            | Instruction::Jeq(reg)
            | Instruction::Jneq(reg)
            | Instruction::Jlt(reg)
            | Instruction::Jgt(reg)
            | Instruction::Jleq(reg)
            | Instruction::Jgeq(reg)
            | Instruction::Jo(reg)
            | Instruction::Jno(reg)
            | Instruction::CallR(reg)
            | Instruction::Int(reg)
            | Instruction::Sti(reg) => seq![self.spec_opcode(), reg.spec_compile_src()],
            Instruction::Shl(value, dest)
            | Instruction::Shr(value, dest)
            | Instruction::Shre(value, dest) => seq![
                self.spec_opcode(),
                value.spec_value_byte(0) | dest.spec_compile_dest(),
            ],
            Instruction::CallC(value) => seq![
                self.spec_opcode(),
                0x00,
                value.spec_value_byte(0),
                value.spec_value_byte(1),
            ],
        }
    }

    /// Encode this instruction into its exact byte frame.
    pub fn compile(&self) -> (bytes: Vec<u8>)
        requires
            self.wf(),
        ensures
            bytes@ == self.spec_compile(),
    {
        let bytes: Vec<u8> = match self {
            Instruction::Nop | Instruction::Ret | Instruction::Cli => vec![self.opcode(), 0x00],
            Instruction::DB(_) => vec![self.opcode()],
            Instruction::MovC2R(value, dest)
            | Instruction::AddC2R(value, dest)
            | Instruction::SubC2R(value, dest)
            | Instruction::AndC2R(value, dest)
            | Instruction::OrC2R(value, dest)
            | Instruction::CmpC2R(value, dest) => match value.width() {
                Width::Byte => vec![
                    self.opcode(),
                    dest.compile_dest(),
                    value.value_byte(0),
                    0x00,
                ],
                Width::Word => vec![
                    self.opcode(),
                    dest.compile_dest(),
                    value.value_byte(0),
                    value.value_byte(1),
                ],
            },
            Instruction::MovR2R(src, dest)
            | Instruction::MovM2R(src, dest)
            | Instruction::MovR2M(src, dest)
            | Instruction::AddR2R(src, dest)
            | Instruction::SubR2R(src, dest)
            | Instruction::AndR2R(src, dest)
            | Instruction::OrR2R(src, dest)
            | Instruction::CmpR2R(src, dest) => vec![self.opcode(), src.compile_with(dest)],
            Instruction::Push(reg)
            | Instruction::Pop(reg)
            | Instruction::Not(reg)
            | Instruction::AJmp(reg)
            | Instruction::Jmp(reg)
            | Instruction::Jeq(reg)
            | Instruction::Jneq(reg)
            | Instruction::Jlt(reg)
            | Instruction::Jgt(reg)
            | Instruction::Jleq(reg)
            | Instruction::Jgeq(reg)
            | Instruction::Jo(reg)
            | Instruction::Jno(reg)
            | Instruction::CallR(reg)
            | Instruction::Int(reg)
            | Instruction::Sti(reg) => vec![self.opcode(), reg.compile_src()],
            Instruction::Shl(value, dest)
            | Instruction::Shr(value, dest)
            | Instruction::Shre(value, dest) => vec![
                self.opcode(),
                value.value_byte(0) | dest.compile_dest(),
            ],
            Instruction::CallC(value) => vec![
                self.opcode(),
                0x00,
                value.value_byte(0),
                value.value_byte(1),
            ],
        };
        proof {
            assert(bytes@ =~= self.spec_compile());
        }
        bytes
    }
}

/// The reported length and the produced encoding agree: for every
/// instruction, `spec_compile` yields exactly `spec_len` bytes.
pub proof fn lemma_len_matches_compile(inst: Instruction)
    ensures
        inst.spec_compile().len() == inst.spec_len(),
{
}

/// Frames come in exactly three sizes: 1, 2 or 4 bytes — never 3.
pub proof fn lemma_frame_sizes(inst: Instruction)
    ensures
        inst.spec_len() == 1 || inst.spec_len() == 2 || inst.spec_len() == 4,
{
}

} // verus!
