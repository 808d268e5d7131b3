//! A small custom instruction set and its binary codec.
//!
//! Instructions are built through validating constructors, report their
//! opcode and encoded length, and serialize to a 1-, 2- or 4-byte frame.
//! Register operands carry a 4-bit slot id that round-trips through the
//! nibble codec, and register names round-trip through `name`/`from_str`.

mod instruction;
pub use instruction::Instruction;

mod register;
pub use register::{Register, Width};

mod value;
pub use value::Value;

pub mod utils;
