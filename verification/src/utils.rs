use vstd::prelude::*;

use crate::instruction::Instruction;

verus! {

/// Every failure the codec can report, returned as a plain value.
#[derive(Debug, Clone, PartialEq)]
pub enum Error {
    /// A validating constructor rejected its operands; carries the rejected,
    /// well-formed but illegal, instruction for diagnostics.
    OperandWidthMismatch(Instruction),

    /// Reserved by the taxonomy for a destination operand that cannot be
    /// written; the current validity rules fold this case into
    /// `OperandWidthMismatch`.
    DestOperandNotWritable(Instruction),

    /// A register spelling that no register answers to; carries the
    /// offending text.
    InvalidRegister(String),
}

} // verus!
