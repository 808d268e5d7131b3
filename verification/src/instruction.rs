use vstd::prelude::*;

use crate::register::{Register, Width};
use crate::utils::Error;
use crate::value::Value;

mod compile;

verus! {

/// One operation of the instruction set, with its operands.
///
/// Instructions are immutable values, built through the validating
/// constructors below and consumed by `opcode`, `len` and `compile`.
#[derive(Debug, Clone, Copy, PartialEq, Eq, Structural)]
pub enum Instruction {
    // Misc
    /// No operation
    Nop,

    /// Pseudo instruction corresponding to a literal byte
    DB(u8),

    // Memory manipulation
    /// Move constant to register
    MovC2R(Value, Register),

    /// Move register to register
    MovR2R(Register, Register),

    /// Move from memory to register
    MovM2R(Register, Register),

    /// Move from register to memory
    MovR2M(Register, Register),

    /// Push register to the stack
    Push(Register),

    /// Pop register from the stack
    Pop(Register),

    // Arithmetic
    /// Add value to register
    AddC2R(Value, Register),

    /// Add two registers
    AddR2R(Register, Register),

    /// Subtract value from register
    SubC2R(Value, Register),

    /// Subtract two registers
    SubR2R(Register, Register),

    /// Bitwise not a register
    Not(Register),

    /// Bitwise and a register with a value
    AndC2R(Value, Register),

    /// Bitwise and two registers
    AndR2R(Register, Register),

    /// Bitwise or a register with a value
    OrC2R(Value, Register),

    /// Bitwise or two registers
    OrR2R(Register, Register),

    /// Shift left a register
    Shl(Value, Register),

    /// Shift right a register
    Shr(Value, Register),

    /// Shift right a register (sign extended)
    Shre(Value, Register),

    /// Compare a register to a value
    CmpC2R(Value, Register),

    /// Compare two registers
    CmpR2R(Register, Register),

    // Jumps
    /// Absolute jump
    AJmp(Register),

    /// Relative jump
    Jmp(Register),

    /// Relative jump if equal
    Jeq(Register),

    /// Relative jump if not equal
    Jneq(Register),

    /// Relative jump if less than
    Jlt(Register),

    /// Relative jump if greater than
    Jgt(Register),

    /// Relative jump if less than or equal
    Jleq(Register),

    /// Relative jump if greater than or equal
    Jgeq(Register),

    /// Relative jump if overflow
    Jo(Register),

    /// Relative jump if not overflow
    Jno(Register),

    /// Push RIP to the stack and jump to a constant target
    CallC(Value),

    /// Push RIP to the stack and jump to a register target
    CallR(Register),

    /// Pop RIP from the stack
    Ret,

    /// Send an interrupt with the value of the register
    Int(Register),

    /// Enable interruptions and point the handler to the register
    Sti(Register),

    /// Disable interruptions
    Cli,
}

impl Instruction {
    /// Every register operand names one of the ten physical general-purpose
    /// registers or a fixed register, so its slot id fits a nibble.
    pub open spec fn wf(self) -> bool {
        match self {
            Instruction::Nop | Instruction::DB(_) | Instruction::Ret | Instruction::Cli => true,
            Instruction::MovC2R(_, dest)
            | Instruction::AddC2R(_, dest)
            | Instruction::SubC2R(_, dest)
            | Instruction::AndC2R(_, dest)
            | Instruction::OrC2R(_, dest)
            | Instruction::CmpC2R(_, dest)
            | Instruction::Shl(_, dest)
            | Instruction::Shr(_, dest)
            | Instruction::Shre(_, dest) => dest.wf(),
            Instruction::MovR2R(src, dest)
            | Instruction::MovM2R(src, dest)
            | Instruction::MovR2M(src, dest)
            | Instruction::AddR2R(src, dest)
            | Instruction::SubR2R(src, dest)
            | Instruction::AndR2R(src, dest)
            | Instruction::OrR2R(src, dest)
            | Instruction::CmpR2R(src, dest) => src.wf() && dest.wf(),
            Instruction::Push(reg)
            | Instruction::Pop(reg)
            | Instruction::Not(reg)
            | Instruction::AJmp(reg)
            | Instruction::Jmp(reg)
            | Instruction::Jeq(reg)
            | Instruction::Jneq(reg)
            | Instruction::Jlt(reg)
            | Instruction::Jgt(reg)
            | Instruction::Jleq(reg)
            | Instruction::Jgeq(reg)
            | Instruction::Jo(reg)
            | Instruction::Jno(reg)
            | Instruction::CallR(reg)
            | Instruction::Int(reg)
            | Instruction::Sti(reg) => reg.wf(),
            Instruction::CallC(_) => true,
        }
    }

    /// The legality rule of each variant: which operand widths and
    /// destinations the operation accepts.
    pub open spec fn spec_is_valid(self) -> bool {
        match self {
            Instruction::Nop | Instruction::Not(_) | Instruction::Ret | Instruction::Cli => true,
            Instruction::DB(_) => true,
            Instruction::MovM2R(src, dest) => src.spec_width() == Width::Word
                && dest.spec_width() == Width::Byte,
            Instruction::MovR2M(src, dest) => src.spec_width() == Width::Byte
                && dest.spec_width() == Width::Word,
            Instruction::MovR2R(src, dest)
            | Instruction::AddR2R(src, dest)
            | Instruction::SubR2R(src, dest)
            | Instruction::AndR2R(src, dest)
            | Instruction::OrR2R(src, dest)
            | Instruction::CmpR2R(src, dest) => src.spec_width() == dest.spec_width()
                && dest.spec_is_writable(),
            Instruction::MovC2R(value, dest)
            | Instruction::AddC2R(value, dest)
            | Instruction::AndC2R(value, dest)
            | Instruction::OrC2R(value, dest)
            | Instruction::SubC2R(value, dest)
            | Instruction::CmpC2R(value, dest) => value.spec_width() == dest.spec_width()
                && dest.spec_is_writable(),
            Instruction::CallC(value) => value.spec_width() == Width::Word,
            Instruction::Push(reg)
            | Instruction::Pop(reg)
            | Instruction::AJmp(reg)
            | Instruction::Jmp(reg)
            | Instruction::Jeq(reg)
            | Instruction::Jneq(reg)
            | Instruction::Jlt(reg)
            | Instruction::Jgt(reg)
            | Instruction::Jleq(reg)
            | Instruction::Jgeq(reg)
            | Instruction::Jo(reg)
            | Instruction::Jno(reg)
            | Instruction::CallR(reg)
            | Instruction::Int(reg)
            | Instruction::Sti(reg) => reg.spec_width() == Width::Word,
            Instruction::Shl(shift, reg)
            | Instruction::Shr(shift, reg)
            | Instruction::Shre(shift, reg) => match reg.spec_width() {
                Width::Byte => shift.spec_value_byte(0) <= 8,
                Width::Word => shift.spec_value_byte(0) <= 16,
            },
        }
    }

    /// Whether the operands obey this variant's legality rule; re-derivable
    /// at any time from the instruction's content.
    pub fn is_valid(&self) -> (b: bool)
        ensures
            b == self.spec_is_valid(),
    {
        match self {
            Instruction::Nop | Instruction::Not(_) | Instruction::Ret | Instruction::Cli => true,
            Instruction::DB(_) => true,
            Instruction::MovM2R(src, dest) => src.width() == Width::Word && dest.width()
                == Width::Byte,
            Instruction::MovR2M(src, dest) => src.width() == Width::Byte && dest.width()
                == Width::Word,
            Instruction::MovR2R(src, dest)
            | Instruction::AddR2R(src, dest)
            | Instruction::SubR2R(src, dest)
            | Instruction::AndR2R(src, dest)
            | Instruction::OrR2R(src, dest)
            | Instruction::CmpR2R(src, dest) => src.width() == dest.width() && dest.is_writable(),
            Instruction::MovC2R(value, dest)
            | Instruction::AddC2R(value, dest)
            | Instruction::AndC2R(value, dest)
            | Instruction::OrC2R(value, dest)
            | Instruction::SubC2R(value, dest)
            | Instruction::CmpC2R(value, dest) => value.width() == dest.width()
                && dest.is_writable(),
            Instruction::CallC(value) => value.width() == Width::Word,
            Instruction::Push(reg)
            | Instruction::Pop(reg)
            | Instruction::AJmp(reg)
            | Instruction::Jmp(reg)
            | Instruction::Jeq(reg)
            | Instruction::Jneq(reg)
            | Instruction::Jlt(reg)
            | Instruction::Jgt(reg)
            | Instruction::Jleq(reg)
            | Instruction::Jgeq(reg)
            | Instruction::Jo(reg)
            | Instruction::Jno(reg)
            | Instruction::CallR(reg)
            | Instruction::Int(reg)
            | Instruction::Sti(reg) => reg.width() == Width::Word,
            Instruction::Shl(shift, reg)
            | Instruction::Shr(shift, reg)
            | Instruction::Shre(shift, reg) => match reg.width() {
                Width::Byte => shift.value_byte(0) <= 8,
                Width::Word => shift.value_byte(0) <= 16,
            },
        }
    }

    /// What a validating constructor returns for the candidate `inst`: the
    /// candidate itself when its operands are legal, otherwise the width
    /// mismatch error carrying that exact candidate.
    pub open spec fn spec_validated(inst: Instruction) -> Result<Instruction, Error> {
        if inst.spec_is_valid() {
            Ok(inst)
        } else {
            Err(Error::OperandWidthMismatch(inst))
        }
    }

    /// Shared tail of every fallible constructor.
    fn validated(inst: Instruction) -> (r: Result<Instruction, Error>)
        ensures
            r == Instruction::spec_validated(inst),
    {
        if inst.is_valid() {
            Ok(inst)
        } else {
            Err(Error::OperandWidthMismatch(inst))
        }
    }

    /// No operation; always legal.
    pub fn nop() -> (r: Instruction)
        ensures
            r == Instruction::Nop,
    {
        Instruction::Nop
    }

    /// A literal byte placed in the instruction stream; always legal.
    pub fn db(value: u8) -> (r: Instruction)
        ensures
            r == Instruction::DB(value),
    {
        Instruction::DB(value)
    }

    /// Move a constant into a register.
    pub fn movc2r(value: Value, dest: Register) -> (r: Result<Instruction, Error>)
        ensures
            r == Instruction::spec_validated(Instruction::MovC2R(value, dest)),
    {
        Self::validated(Instruction::MovC2R(value, dest))
    }

    /// Move a register into a register.
    pub fn movr2r(src: Register, dest: Register) -> (r: Result<Instruction, Error>)
        ensures
            r == Instruction::spec_validated(Instruction::MovR2R(src, dest)),
    {
        Self::validated(Instruction::MovR2R(src, dest))
    }

    /// Load a byte from the memory addressed by `src` into `dest`.
    pub fn movm2r(src: Register, dest: Register) -> (r: Result<Instruction, Error>)
        ensures
            r == Instruction::spec_validated(Instruction::MovM2R(src, dest)),
    {
        Self::validated(Instruction::MovM2R(src, dest))
    }

    /// Store the byte in `src` to the memory addressed by `dest`.
    pub fn movr2m(src: Register, dest: Register) -> (r: Result<Instruction, Error>)
        ensures
            r == Instruction::spec_validated(Instruction::MovR2M(src, dest)),
    {
        Self::validated(Instruction::MovR2M(src, dest))
    }

    /// Push a register to the stack.
    pub fn push(reg: Register) -> (r: Result<Instruction, Error>)
        ensures
            r == Instruction::spec_validated(Instruction::Push(reg)),
    {
        Self::validated(Instruction::Push(reg))
    }

    /// Pop a register from the stack.
    pub fn pop(reg: Register) -> (r: Result<Instruction, Error>)
        ensures
            r == Instruction::spec_validated(Instruction::Pop(reg)),
    {
        Self::validated(Instruction::Pop(reg))
    }

    /// Add a constant to a register.
    pub fn addc2r(value: Value, dest: Register) -> (r: Result<Instruction, Error>)
        ensures
            r == Instruction::spec_validated(Instruction::AddC2R(value, dest)),
    {
        Self::validated(Instruction::AddC2R(value, dest))
    }

    /// Add a register into a register.
    pub fn addr2r(src: Register, dest: Register) -> (r: Result<Instruction, Error>)
        ensures
            r == Instruction::spec_validated(Instruction::AddR2R(src, dest)),
    {
        Self::validated(Instruction::AddR2R(src, dest))
    }

    /// Subtract a constant from a register.
    pub fn subc2r(value: Value, dest: Register) -> (r: Result<Instruction, Error>)
        ensures
            r == Instruction::spec_validated(Instruction::SubC2R(value, dest)),
    {
        Self::validated(Instruction::SubC2R(value, dest))
    }

    /// Subtract a register from a register.
    pub fn subr2r(src: Register, dest: Register) -> (r: Result<Instruction, Error>)
        ensures
            r == Instruction::spec_validated(Instruction::SubR2R(src, dest)),
    {
        Self::validated(Instruction::SubR2R(src, dest))
    }

    /// Bitwise-not a register in place; always legal.
    pub fn not(reg: Register) -> (r: Result<Instruction, Error>)
        ensures
            r == Instruction::spec_validated(Instruction::Not(reg)),
    {
        Self::validated(Instruction::Not(reg))
    }

    /// Bitwise-and a constant into a register.
    pub fn andc2r(value: Value, dest: Register) -> (r: Result<Instruction, Error>)
        ensures
            r == Instruction::spec_validated(Instruction::AndC2R(value, dest)),
    {
        Self::validated(Instruction::AndC2R(value, dest))
    }

    /// Bitwise-and a register into a register.
    pub fn andr2r(src: Register, dest: Register) -> (r: Result<Instruction, Error>)
        ensures
            r == Instruction::spec_validated(Instruction::AndR2R(src, dest)),
    {
        Self::validated(Instruction::AndR2R(src, dest))
    }

    /// Bitwise-or a constant into a register.
    pub fn orc2r(value: Value, dest: Register) -> (r: Result<Instruction, Error>)
        ensures
            r == Instruction::spec_validated(Instruction::OrC2R(value, dest)),
    {
        Self::validated(Instruction::OrC2R(value, dest))
    }

    /// Bitwise-or a register into a register.
    pub fn orr2r(src: Register, dest: Register) -> (r: Result<Instruction, Error>)
        ensures
            r == Instruction::spec_validated(Instruction::OrR2R(src, dest)),
    {
        Self::validated(Instruction::OrR2R(src, dest))
    }

    /// Shift a register left by a bounded count.
    pub fn shl(shift: Value, dest: Register) -> (r: Result<Instruction, Error>)
        ensures
            r == Instruction::spec_validated(Instruction::Shl(shift, dest)),
    {
        Self::validated(Instruction::Shl(shift, dest))
    }

    /// Shift a register right by a bounded count.
    pub fn shr(shift: Value, dest: Register) -> (r: Result<Instruction, Error>)
        ensures
            r == Instruction::spec_validated(Instruction::Shr(shift, dest)),
    {
        Self::validated(Instruction::Shr(shift, dest))
    }

    /// Shift a register right, sign extended, by a bounded count.
    pub fn shre(shift: Value, dest: Register) -> (r: Result<Instruction, Error>)
        ensures
            r == Instruction::spec_validated(Instruction::Shre(shift, dest)),
    {
        Self::validated(Instruction::Shre(shift, dest))
    }

    /// Compare a register to a constant.
    pub fn cmpc2r(value: Value, dest: Register) -> (r: Result<Instruction, Error>)
        ensures
            r == Instruction::spec_validated(Instruction::CmpC2R(value, dest)),
    {
        Self::validated(Instruction::CmpC2R(value, dest))
    }

    /// Compare two registers.
    pub fn cmpr2r(src: Register, dest: Register) -> (r: Result<Instruction, Error>)
        ensures
            r == Instruction::spec_validated(Instruction::CmpR2R(src, dest)),
    {
        Self::validated(Instruction::CmpR2R(src, dest))
    }

    /// Absolute jump to a register target.
    pub fn ajmp(reg: Register) -> (r: Result<Instruction, Error>)
        ensures
            r == Instruction::spec_validated(Instruction::AJmp(reg)),
    {
        Self::validated(Instruction::AJmp(reg))
    }

    /// Relative jump to a register target.
    pub fn jmp(reg: Register) -> (r: Result<Instruction, Error>)
        ensures
            r == Instruction::spec_validated(Instruction::Jmp(reg)),
    {
        Self::validated(Instruction::Jmp(reg))
    }

    /// Relative jump if equal.
    pub fn jeq(reg: Register) -> (r: Result<Instruction, Error>)
        ensures
            r == Instruction::spec_validated(Instruction::Jeq(reg)),
    {
        Self::validated(Instruction::Jeq(reg))
    }

    /// Relative jump if not equal.
    pub fn jneq(reg: Register) -> (r: Result<Instruction, Error>)
        ensures
            r == Instruction::spec_validated(Instruction::Jneq(reg)),
    {
        Self::validated(Instruction::Jneq(reg))
    }

    /// Relative jump if less than.
    pub fn jlt(reg: Register) -> (r: Result<Instruction, Error>)
        ensures
            r == Instruction::spec_validated(Instruction::Jlt(reg)),
    {
        Self::validated(Instruction::Jlt(reg))
    }

    /// Relative jump if greater than.
    pub fn jgt(reg: Register) -> (r: Result<Instruction, Error>)
        ensures
            r == Instruction::spec_validated(Instruction::Jgt(reg)),
    {
        Self::validated(Instruction::Jgt(reg))
    }

    /// Relative jump if less than or equal.
    pub fn jleq(reg: Register) -> (r: Result<Instruction, Error>)
        ensures
            r == Instruction::spec_validated(Instruction::Jleq(reg)),
    {
        Self::validated(Instruction::Jleq(reg))
    }

    /// Relative jump if greater than or equal.
    pub fn jgeq(reg: Register) -> (r: Result<Instruction, Error>)
        ensures
            r == Instruction::spec_validated(Instruction::Jgeq(reg)),
    {
        Self::validated(Instruction::Jgeq(reg))
    }

    /// Relative jump if overflow.
    pub fn jo(reg: Register) -> (r: Result<Instruction, Error>)
        ensures
            r == Instruction::spec_validated(Instruction::Jo(reg)),
    {
        Self::validated(Instruction::Jo(reg))
    }

    /// Relative jump if not overflow.
    pub fn jno(reg: Register) -> (r: Result<Instruction, Error>)
        ensures
            r == Instruction::spec_validated(Instruction::Jno(reg)),
    {
        Self::validated(Instruction::Jno(reg))
    }

    /// Call a constant target: push RIP, then jump.
    pub fn callc(value: Value) -> (r: Result<Instruction, Error>)
        ensures
            r == Instruction::spec_validated(Instruction::CallC(value)),
    {
        Self::validated(Instruction::CallC(value))
    }

    /// Call a register target: push RIP, then jump.
    pub fn callr(reg: Register) -> (r: Result<Instruction, Error>)
        ensures
            r == Instruction::spec_validated(Instruction::CallR(reg)),
    {
        Self::validated(Instruction::CallR(reg))
    }

    /// Return: pop RIP from the stack; always legal.
    pub fn ret() -> (r: Instruction)
        ensures
            r == Instruction::Ret,
    {
        Instruction::Ret
    }

    /// Send an interrupt carrying the value of a register.
    pub fn interrupt(reg: Register) -> (r: Result<Instruction, Error>)
        ensures
            r == Instruction::spec_validated(Instruction::Int(reg)),
    {
        Self::validated(Instruction::Int(reg))
    }

    /// Enable interruptions and point the handler at a register.
    pub fn sti(reg: Register) -> (r: Result<Instruction, Error>)
        ensures
            r == Instruction::spec_validated(Instruction::Sti(reg)),
    {
        Self::validated(Instruction::Sti(reg))
    }

    /// Disable interruptions; always legal.
    pub fn cli() -> (r: Instruction)
        ensures
            r == Instruction::Cli,
    {
        Instruction::Cli
    }

    /// The opcode byte. Width-polymorphic operations hold two consecutive
    /// opcodes, the byte form on the even offset and the word form right
    /// above it; width-fixed operations hold a single opcode. The literal
    /// byte pseudo-op reuses its payload as its opcode.
    pub open spec fn spec_opcode(self) -> u8 {
        match self {
            Instruction::Nop => 0x00,
            Instruction::DB(value) => value,
            Instruction::MovC2R(value, _) => match value.spec_width() {
                Width::Byte => 0x01,
                Width::Word => 0x02,
            },
            Instruction::MovR2R(src, _) => match src.spec_width() {
                Width::Byte => 0x03,
                Width::Word => 0x04,
            },
            Instruction::MovM2R(_, dest) => match dest.spec_width() {
                Width::Byte => 0x05,
                Width::Word => 0x06,
            },
            Instruction::MovR2M(src, _) => match src.spec_width() {
                Width::Byte => 0x07,
                Width::Word => 0x08,
            },
            Instruction::Push(_) => 0x09,
            Instruction::Pop(_) => 0x0A,
            Instruction::AddC2R(value, _) => match value.spec_width() {
                Width::Byte => 0x0B,
                Width::Word => 0x0C,
            },
            Instruction::AddR2R(src, _) => match src.spec_width() {
                Width::Byte => 0x0D,
                Width::Word => 0x0E,
            },
            Instruction::SubC2R(value, _) => match value.spec_width() {
                Width::Byte => 0x0F,
                Width::Word => 0x10,
            },
            Instruction::SubR2R(src, _) => match src.spec_width() {
                Width::Byte => 0x11,
                Width::Word => 0x12,
            },
            Instruction::Not(dest) => match dest.spec_width() {
                Width::Byte => 0x13,
                Width::Word => 0x14,
            },
            Instruction::AndC2R(value, _) => match value.spec_width() {
                Width::Byte => 0x15,
                Width::Word => 0x16,
            },
            Instruction::AndR2R(src, _) => match src.spec_width() {
                Width::Byte => 0x17,
                Width::Word => 0x18,
            },
            Instruction::OrC2R(value, _) => match value.spec_width() {
                Width::Byte => 0x19,
                Width::Word => 0x1A,
            },
            Instruction::OrR2R(src, _) => match src.spec_width() {
                Width::Byte => 0x1B,
                Width::Word => 0x1C,
            },
            Instruction::Shl(_, dest) => match dest.spec_width() {
                Width::Byte => 0x1D,
                Width::Word => 0x1E,
            },
            Instruction::Shr(_, dest) => match dest.spec_width() {
                Width::Byte => 0x1F,
                Width::Word => 0x20,
            },
            Instruction::Shre(_, dest) => match dest.spec_width() {
                Width::Byte => 0x21,
                Width::Word => 0x22,
            },
            Instruction::CmpC2R(value, _) => match value.spec_width() {
                Width::Byte => 0x23,
                Width::Word => 0x24,
            },
            Instruction::CmpR2R(src, _) => match src.spec_width() {
                Width::Byte => 0x25,
                Width::Word => 0x26,
            },
            Instruction::AJmp(_) => 0x27,
            Instruction::Jmp(_) => 0x28,
            Instruction::Jeq(_) => 0x29,
            Instruction::Jneq(_) => 0x2A,
            Instruction::Jlt(_) => 0x2B,
            Instruction::Jgt(_) => 0x2C,
            Instruction::Jleq(_) => 0x2D,
            Instruction::Jgeq(_) => 0x2E,
            Instruction::Jo(_) => 0x2F,
            Instruction::Jno(_) => 0x30,
            Instruction::CallC(_) => 0x31,
            Instruction::CallR(_) => 0x32,
            Instruction::Ret => 0x33,
            Instruction::Int(_) => 0x34,
            Instruction::Sti(_) => 0x35,
            Instruction::Cli => 0x36,
        }
    }

    /// The leading byte of this instruction's encoding.
    pub fn opcode(&self) -> (op: u8)
        ensures
            op == self.spec_opcode(),
    {
        match self {
            Instruction::Nop => 0x00,
            Instruction::DB(value) => *value,
            Instruction::MovC2R(value, _) => match value.width() {
                Width::Byte => 0x01,
                Width::Word => 0x02,
            },
            Instruction::MovR2R(src, _) => match src.width() {
                Width::Byte => 0x03,
                Width::Word => 0x04,
            },
            Instruction::MovM2R(_, dest) => match dest.width() {
                Width::Byte => 0x05,
                Width::Word => 0x06,
            },
            Instruction::MovR2M(src, _) => match src.width() {
                Width::Byte => 0x07,
                Width::Word => 0x08,
            },
            Instruction::Push(_) => 0x09,
            Instruction::Pop(_) => 0x0A,
            Instruction::AddC2R(value, _) => match value.width() {
                Width::Byte => 0x0B,
                Width::Word => 0x0C,
            },
            Instruction::AddR2R(src, _) => match src.width() {
                Width::Byte => 0x0D,
                Width::Word => 0x0E,
            },
            Instruction::SubC2R(value, _) => match value.width() {
                Width::Byte => 0x0F,
                Width::Word => 0x10,
            },
            Instruction::SubR2R(src, _) => match src.width() {
                Width::Byte => 0x11,
                Width::Word => 0x12,
            },
            Instruction::Not(dest) => match dest.width() {
                Width::Byte => 0x13,
                Width::Word => 0x14,
            },
            Instruction::AndC2R(value, _) => match value.width() {
                Width::Byte => 0x15,
                Width::Word => 0x16,
            },
            Instruction::AndR2R(src, _) => match src.width() {
                Width::Byte => 0x17,
                Width::Word => 0x18,
            },
            Instruction::OrC2R(value, _) => match value.width() {
                Width::Byte => 0x19,
                Width::Word => 0x1A,
            },
            Instruction::OrR2R(src, _) => match src.width() {
                Width::Byte => 0x1B,
                Width::Word => 0x1C,
            },
            Instruction::Shl(_, dest) => match dest.width() {
                Width::Byte => 0x1D,
                Width::Word => 0x1E,
            },
            Instruction::Shr(_, dest) => match dest.width() {
                Width::Byte => 0x1F,
                Width::Word => 0x20,
            },
            Instruction::Shre(_, dest) => match dest.width() {
                Width::Byte => 0x21,
                Width::Word => 0x22,
            },
            Instruction::CmpC2R(value, _) => match value.width() {
                Width::Byte => 0x23,
                Width::Word => 0x24,
            },
            Instruction::CmpR2R(src, _) => match src.width() {
                Width::Byte => 0x25,
                Width::Word => 0x26,
            },
            Instruction::AJmp(_) => 0x27,
            Instruction::Jmp(_) => 0x28,
            Instruction::Jeq(_) => 0x29,
            Instruction::Jneq(_) => 0x2A,
            Instruction::Jlt(_) => 0x2B,
            Instruction::Jgt(_) => 0x2C,
            Instruction::Jleq(_) => 0x2D,
            Instruction::Jgeq(_) => 0x2E,
            Instruction::Jo(_) => 0x2F,
            Instruction::Jno(_) => 0x30,
            Instruction::CallC(_) => 0x31,
            Instruction::CallR(_) => 0x32,
            Instruction::Ret => 0x33,
            Instruction::Int(_) => 0x34,
            Instruction::Sti(_) => 0x35,
            Instruction::Cli => 0x36,
        }
    }

    /// The encoded frame size: 1 byte for the literal pseudo-op, 4 for the
    /// constant-carrying forms, 2 for everything else — never 3.
    pub open spec fn spec_len(self) -> u16 {
        match self {
            Instruction::DB(_) => 1,
            Instruction::MovC2R(_, _)
            | Instruction::AddC2R(_, _)
            | Instruction::SubC2R(_, _)
            | Instruction::AndC2R(_, _)
            | Instruction::OrC2R(_, _)
            | Instruction::CmpC2R(_, _)
            | Instruction::CallC(_) => 4,
            _ => 2,
        }
    }

    /// The position of this instruction's variant in the instruction set;
    /// two instructions perform the same operation exactly when their
    /// positions agree.
    pub open spec fn variant_index(self) -> int {
        match self {
            Instruction::Nop => 0,
            Instruction::DB(_) => 1,
            Instruction::MovC2R(_, _) => 2,
            Instruction::MovR2R(_, _) => 3,
            Instruction::MovM2R(_, _) => 4,
            Instruction::MovR2M(_, _) => 5,
            Instruction::Push(_) => 6,
            Instruction::Pop(_) => 7,
            Instruction::AddC2R(_, _) => 8,
            Instruction::AddR2R(_, _) => 9,
            Instruction::SubC2R(_, _) => 10,
            Instruction::SubR2R(_, _) => 11,
            Instruction::Not(_) => 12,
            Instruction::AndC2R(_, _) => 13,
            Instruction::AndR2R(_, _) => 14,
            Instruction::OrC2R(_, _) => 15,
            Instruction::OrR2R(_, _) => 16,
            Instruction::Shl(_, _) => 17,
            Instruction::Shr(_, _) => 18,
            Instruction::Shre(_, _) => 19,
            Instruction::CmpC2R(_, _) => 20,
            Instruction::CmpR2R(_, _) => 21,
            Instruction::AJmp(_) => 22,
            Instruction::Jmp(_) => 23,
            Instruction::Jeq(_) => 24,
            Instruction::Jneq(_) => 25,
            Instruction::Jlt(_) => 26,
            Instruction::Jgt(_) => 27,
            Instruction::Jleq(_) => 28,
            Instruction::Jgeq(_) => 29,
            Instruction::Jo(_) => 30,
            Instruction::Jno(_) => 31,
            Instruction::CallC(_) => 32,
            Instruction::CallR(_) => 33,
            Instruction::Ret => 34,
            Instruction::Int(_) => 35,
            Instruction::Sti(_) => 36,
            Instruction::Cli => 37,
        }
    }

    /// The operand width that the opcode records: the discriminating
    /// operand's width for a width-polymorphic variant, `Byte` for a
    /// width-fixed one.
    pub open spec fn encoded_width(self) -> Width {
        match self {
            Instruction::MovC2R(value, _)
            | Instruction::AddC2R(value, _)
            | Instruction::SubC2R(value, _)
            | Instruction::AndC2R(value, _)
            | Instruction::OrC2R(value, _)
            | Instruction::CmpC2R(value, _) => value.spec_width(),
            Instruction::MovR2R(src, _)
            | Instruction::MovR2M(src, _)
            | Instruction::AddR2R(src, _)
            | Instruction::SubR2R(src, _)
            | Instruction::AndR2R(src, _)
            | Instruction::OrR2R(src, _)
            | Instruction::CmpR2R(src, _) => src.spec_width(),
            Instruction::MovM2R(_, dest)
            | Instruction::Not(dest)
            | Instruction::Shl(_, dest)
            | Instruction::Shr(_, dest)
            | Instruction::Shre(_, dest) => dest.spec_width(),
            _ => Width::Byte,
        }
    }

    /// How many bytes `compile` produces for this instruction.
    pub fn len(&self) -> (n: u16)
        ensures
            n == self.spec_len(),
    {
        match self {
            Instruction::DB(_) => 1,
            Instruction::MovC2R(_, _)
            | Instruction::AddC2R(_, _)
            | Instruction::SubC2R(_, _)
            | Instruction::AndC2R(_, _)
            | Instruction::OrC2R(_, _)
            | Instruction::CmpC2R(_, _)
            | Instruction::CallC(_) => 4,
            _ => 2,
        }
    }
}

/// The variant position and encoded width that each opcode byte stands for,
/// read off the allocation table: width-polymorphic variants hold an
/// even-offset byte form and the word form right above it.
spec fn opcode_class(op: int) -> (int, Width) {
    if op == 0x00 {
        (0, Width::Byte)
    } else if op == 0x01 {
        (2, Width::Byte)
    } else if op == 0x02 {
        (2, Width::Word)
    } else if op == 0x03 {
        (3, Width::Byte)
    } else if op == 0x04 {
        (3, Width::Word)
    } else if op == 0x05 {
        (4, Width::Byte)
    } else if op == 0x06 {
        (4, Width::Word)
    } else if op == 0x07 {
        (5, Width::Byte)
    } else if op == 0x08 {
        (5, Width::Word)
    } else if op == 0x09 {
        (6, Width::Byte)
    } else if op == 0x0A {
        (7, Width::Byte)
    } else if op == 0x0B {
        (8, Width::Byte)
    } else if op == 0x0C {
        (8, Width::Word)
    } else if op == 0x0D {
        (9, Width::Byte)
    } else if op == 0x0E {
        (9, Width::Word)
    } else if op == 0x0F {
        (10, Width::Byte)
    } else if op == 0x10 {
        (10, Width::Word)
    } else if op == 0x11 {
        (11, Width::Byte)
    } else if op == 0x12 {
        (11, Width::Word)
    } else if op == 0x13 {
        (12, Width::Byte)
    } else if op == 0x14 {
        (12, Width::Word)
    } else if op == 0x15 {
        (13, Width::Byte)
    } else if op == 0x16 {
        (13, Width::Word)
    } else if op == 0x17 {
        (14, Width::Byte)
    } else if op == 0x18 {
        (14, Width::Word)
    } else if op == 0x19 {
        (15, Width::Byte)
    } else if op == 0x1A {
        (15, Width::Word)
    } else if op == 0x1B {
        (16, Width::Byte)
    } else if op == 0x1C {
        (16, Width::Word)
    } else if op == 0x1D {
        (17, Width::Byte)
    } else if op == 0x1E {
        (17, Width::Word)
    } else if op == 0x1F {
        (18, Width::Byte)
    } else if op == 0x20 {
        (18, Width::Word)
    } else if op == 0x21 {
        (19, Width::Byte)
    } else if op == 0x22 {
        (19, Width::Word)
    } else if op == 0x23 {
        (20, Width::Byte)
    } else if op == 0x24 {
        (20, Width::Word)
    } else if op == 0x25 {
        (21, Width::Byte)
    } else if op == 0x26 {
        (21, Width::Word)
    } else if op == 0x27 {
        (22, Width::Byte)
    } else if op == 0x28 {
        (23, Width::Byte)
    } else if op == 0x29 {
        (24, Width::Byte)
    } else if op == 0x2A {
        (25, Width::Byte)
    } else if op == 0x2B {
        (26, Width::Byte)
    } else if op == 0x2C {
        (27, Width::Byte)
    } else if op == 0x2D {
        (28, Width::Byte)
    } else if op == 0x2E {
        (29, Width::Byte)
    } else if op == 0x2F {
        (30, Width::Byte)
    } else if op == 0x30 {
        (31, Width::Byte)
    } else if op == 0x31 {
        (32, Width::Byte)
    } else if op == 0x32 {
        (33, Width::Byte)
    } else if op == 0x33 {
        (34, Width::Byte)
    } else if op == 0x34 {
        (35, Width::Byte)
    } else if op == 0x35 {
        (36, Width::Byte)
    } else if op == 0x36 {
        (37, Width::Byte)
    } else {
        (-1, Width::Byte)
    }
}

/// The opcode of a valid machine instruction decodes back to the variant and
/// encoded width it was allocated for.
proof fn lemma_opcode_decodes(inst: Instruction)
    requires
        inst.spec_is_valid(),
        !(inst is DB),
    ensures
        opcode_class(inst.spec_opcode() as int) == (inst.variant_index(), inst.encoded_width()),
{
}

/// Opcode allocation is injective: two valid machine instructions (the
/// literal-byte pseudo-op aside, whose opcode is its arbitrary payload) that
/// share an opcode byte perform the same operation at the same encoded
/// width.
pub proof fn lemma_opcode_injective(a: Instruction, b: Instruction)
    requires
        a.spec_is_valid(),
        b.spec_is_valid(),
        !(a is DB),
        !(b is DB),
        a.spec_opcode() == b.spec_opcode(),
    ensures
        a.variant_index() == b.variant_index(),
        a.encoded_width() == b.encoded_width(),
{
    lemma_opcode_decodes(a);
    lemma_opcode_decodes(b);
}

} // verus!
