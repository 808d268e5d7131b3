use vstd::prelude::*;
use vstd::string::StrSliceExecFns;

use crate::utils::Error;

verus! {

/// Does `c` spell the letter `lo` in either of its two cases?
pub open spec fn spec_letter(c: char, lo: char, up: char) -> bool {
    c == lo || c == up
}

fn letter(c: char, lo: char, up: char) -> (b: bool)
    ensures
        b == spec_letter(c, lo, up),
{
    c == lo || c == up
}

/// Is `c` one of the ten decimal digit characters?
pub open spec fn spec_is_digit(c: char) -> bool {
    c == '0' || c == '1' || c == '2' || c == '3' || c == '4' || c == '5' || c == '6' || c == '7'
        || c == '8' || c == '9'
}

fn is_digit(c: char) -> (b: bool)
    ensures
        b == spec_is_digit(c),
{
    c == '0' || c == '1' || c == '2' || c == '3' || c == '4' || c == '5' || c == '6' || c == '7'
        || c == '8' || c == '9'
}

/// The number a decimal digit character spells.
pub open spec fn spec_digit_value(c: char) -> u8 {
    if c == '0' {
        0
    } else if c == '1' {
        1
    } else if c == '2' {
        2
    } else if c == '3' {
        3
    } else if c == '4' {
        4
    } else if c == '5' {
        5
    } else if c == '6' {
        6
    } else if c == '7' {
        7
    } else if c == '8' {
        8
    } else {
        9
    }
}

fn digit_value(c: char) -> (n: u8)
    ensures
        n == spec_digit_value(c),
{
    if c == '0' {
        0
    } else if c == '1' {
        1
    } else if c == '2' {
        2
    } else if c == '3' {
        3
    } else if c == '4' {
        4
    } else if c == '5' {
        5
    } else if c == '6' {
        6
    } else if c == '7' {
        7
    } else if c == '8' {
        8
    } else {
        9
    }
}

/// Operand bit-size tag: `Byte` is 8 bits, `Word` is 16 bits.
#[derive(Debug, Clone, Copy, PartialEq, Eq, Structural)]
pub enum Width {
    Byte,
    Word,
}

/// A CPU-visible storage location.
///
/// The six fixed control registers are always `Word` wide and never writable
/// as a destination. A general-purpose register `R(width, number)` addresses
/// one of ten physical registers either as its low half (`Byte`) or in full
/// (`Word`), and is always writable.
#[derive(Debug, Clone, Copy, PartialEq, Eq, Structural)]
pub enum Register {
    /// CPU information flags, 16 bits
    RINFO,
    /// Instruction pointer, 16 bits
    RIP,
    /// Interrupt handler pointer, 16 bits
    RINT,
    /// Flags, always 16 bits
    Flags,
    /// Stack base
    RSB,
    /// Stack head
    RSH,
    /// General purpose register
    R(Width, u8),
}

impl Register {
    /// General register 0, byte view.
    pub fn rb0() -> (r: Register)
        ensures
            r == Register::R(Width::Byte, 0),
    {
        Register::R(Width::Byte, 0)
    }

    /// General register 0, word view.
    pub fn r0() -> (r: Register)
        ensures
            r == Register::R(Width::Word, 0),
    {
        Register::R(Width::Word, 0)
    }

    /// General register 1, byte view.
    pub fn rb1() -> (r: Register)
        ensures
            r == Register::R(Width::Byte, 1),
    {
        Register::R(Width::Byte, 1)
    }

    /// General register 1, word view.
    pub fn r1() -> (r: Register)
        ensures
            r == Register::R(Width::Word, 1),
    {
        Register::R(Width::Word, 1)
    }

    /// General register 2, byte view.
    pub fn rb2() -> (r: Register)
        ensures
            r == Register::R(Width::Byte, 2),
    {
        Register::R(Width::Byte, 2)
    }

    /// General register 2, word view.
    pub fn r2() -> (r: Register)
        ensures
            r == Register::R(Width::Word, 2),
    {
        Register::R(Width::Word, 2)
    }

    /// General register 3, byte view.
    pub fn rb3() -> (r: Register)
        ensures
            r == Register::R(Width::Byte, 3),
    {
        Register::R(Width::Byte, 3)
    }

    /// General register 3, word view.
    pub fn r3() -> (r: Register)
        ensures
            r == Register::R(Width::Word, 3),
    {
        Register::R(Width::Word, 3)
    }

    /// General register 4, byte view.
    pub fn rb4() -> (r: Register)
        ensures
            r == Register::R(Width::Byte, 4),
    {
        Register::R(Width::Byte, 4)
    }

    /// General register 4, word view.
    pub fn r4() -> (r: Register)
        ensures
            r == Register::R(Width::Word, 4),
    {
        Register::R(Width::Word, 4)
    }

    /// General register 5, byte view.
    pub fn rb5() -> (r: Register)
        ensures
            r == Register::R(Width::Byte, 5),
    {
        Register::R(Width::Byte, 5)
    }

    /// General register 5, word view.
    pub fn r5() -> (r: Register)
        ensures
            r == Register::R(Width::Word, 5),
    {
        Register::R(Width::Word, 5)
    }

    /// General register 6, byte view.
    pub fn rb6() -> (r: Register)
        ensures
            r == Register::R(Width::Byte, 6),
    {
        Register::R(Width::Byte, 6)
    }

    /// General register 6, word view.
    pub fn r6() -> (r: Register)
        ensures
            r == Register::R(Width::Word, 6),
    {
        Register::R(Width::Word, 6)
    }

    /// General register 7, byte view.
    pub fn rb7() -> (r: Register)
        ensures
            r == Register::R(Width::Byte, 7),
    {
        Register::R(Width::Byte, 7)
    }

    /// General register 7, word view.
    pub fn r7() -> (r: Register)
        ensures
            r == Register::R(Width::Word, 7),
    {
        Register::R(Width::Word, 7)
    }

    /// General register 8, byte view.
    pub fn rb8() -> (r: Register)
        ensures
            r == Register::R(Width::Byte, 8),
    {
        Register::R(Width::Byte, 8)
    }

    /// General register 8, word view.
    pub fn r8() -> (r: Register)
        ensures
            r == Register::R(Width::Word, 8),
    {
        Register::R(Width::Word, 8)
    }

    /// General register 9, byte view.
    pub fn rb9() -> (r: Register)
        ensures
            r == Register::R(Width::Byte, 9),
    {
        Register::R(Width::Byte, 9)
    }

    /// General register 9, word view.
    pub fn r9() -> (r: Register)
        ensures
            r == Register::R(Width::Word, 9),
    {
        Register::R(Width::Word, 9)
    }

    /// A register identity is meaningful when a general-purpose index is one
    /// of the ten physical registers; only then does the slot id fit a nibble.
    pub open spec fn wf(self) -> bool {
        match self {
            Register::R(_, number) => number < 10,
            _ => true,
        }
    }

    pub open spec fn spec_width(self) -> Width {
        match self {
            Register::R(width, _) => width,
            _ => Width::Word,
        }
    }

    /// The bit width of the storage this register addresses.
    pub fn width(&self) -> (w: Width)
        ensures
            w == self.spec_width(),
    {
        match self {
            Register::R(width, _) => *width,
            _ => Width::Word,
        }
    }

    pub open spec fn spec_is_writable(self) -> bool {
        self is R
    }

    /// Whether this register may stand as the destination of a data operation.
    pub fn is_writable(&self) -> (b: bool)
        ensures
            b == self.spec_is_writable(),
    {
        match self {
            Register::R(_, _) => true,
            _ => false,
        }
    }

    /// The 4-bit slot id: the fixed registers occupy ids 0 through 5, the
    /// general-purpose register `n` occupies id `6 + n`. The id does not
    /// record the width; the codec recovers the width from context.
    pub open spec fn spec_compile_src(self) -> u8 {
        match self {
            Register::RINFO => 0,
            Register::RIP => 1,
            Register::RINT => 2,
            Register::Flags => 3,
            Register::RSB => 4,
            Register::RSH => 5,
            Register::R(_, number) => (6 + number) as u8,
        }
    }

    /// The slot id of this register, placed in the low nibble.
    pub fn compile_src(&self) -> (id: u8)
        requires
            self.wf(),
        ensures
            id == self.spec_compile_src(),
            id < 16,
    {
        match self {
            Register::RINFO => 0,
            Register::RIP => 1,
            Register::RINT => 2,
            Register::Flags => 3,
            Register::RSB => 4,
            Register::RSH => 5,
            Register::R(_, number) => 6 + *number,
        }
    }

    /// The slot id moved to the high nibble, i.e. multiplied by 16.
    pub open spec fn spec_compile_dest(self) -> u8 {
        (self.spec_compile_src() * 16) as u8
    }

    /// The slot id of this register, placed in the high nibble, so that a
    /// source id can share the same byte.
    pub fn compile_dest(&self) -> (id: u8)
        requires
            self.wf(),
        ensures
            id == self.spec_compile_dest(),
    {
        self.compile_src() * 16
    }

    /// A source and a destination register packed into one byte:
    /// source id in the low nibble, destination id in the high nibble.
    pub open spec fn spec_compile_with(self, reg: Register) -> u8 {
        (self.spec_compile_src() + reg.spec_compile_dest()) as u8
    }

    /// Pack `self` (the source) and `reg` (the destination) into one byte.
    pub fn compile_with(&self, reg: &Register) -> (b: u8)
        requires
            self.wf(),
            reg.wf(),
        ensures
            b == self.spec_compile_with(*reg),
    {
        self.compile_src() + reg.compile_dest()
    }

    /// The register whose slot id sits in the low nibble of `src`; a
    /// general-purpose id takes its width from the `width` argument.
    pub open spec fn spec_from_src(width: Width, src: u8) -> Register {
        let id = src % 16;
        if id == 0 {
            Register::RINFO
        } else if id == 1 {
            Register::RIP
        } else if id == 2 {
            Register::RINT
        } else if id == 3 {
            Register::Flags
        } else if id == 4 {
            Register::RSB
        } else if id == 5 {
            Register::RSH
        } else {
            Register::R(width, (id - 6) as u8)
        }
    }

    /// Decode the register whose slot id sits in the low nibble of `src`.
    #[verifier::when_used_as_spec(spec_from_src)]
    pub fn from_src(width: Width, src: u8) -> (r: Register)
        ensures
            r == Register::spec_from_src(width, src),
            r.wf(),
    {
        let id = src % 16;
        if id == 0 {
            Register::RINFO
        } else if id == 1 {
            Register::RIP
        } else if id == 2 {
            Register::RINT
        } else if id == 3 {
            Register::Flags
        } else if id == 4 {
            Register::RSB
        } else if id == 5 {
            Register::RSH
        } else {
            Register::R(width, id - 6)
        }
    }

    /// The register whose slot id sits in the high nibble of `dest`.
    pub open spec fn spec_from_dest(width: Width, dest: u8) -> Register {
        Register::spec_from_src(width, dest / 16)
    }

    /// Decode the register whose slot id sits in the high nibble of `dest`.
    #[verifier::when_used_as_spec(spec_from_dest)]
    pub fn from_dest(width: Width, dest: u8) -> (r: Register)
        ensures
            r == Register::spec_from_dest(width, dest),
            r.wf(),
    {
        Register::from_src(width, dest / 16)
    }

    /// The canonical spelling of this register's name: the fixed registers
    /// keep their upper-case names (`Flags` aside), a general-purpose
    /// register is `R<n>` in its word view and `Rb<n>` in its byte view.
    pub open spec fn spec_name(self) -> Seq<char> {
        match self {
            Register::RINFO => "RINFO"@,
            Register::RIP => "RIP"@,
            Register::RINT => "RINT"@,
            Register::Flags => "Flags"@,
            Register::RSB => "RSB"@,
            Register::RSH => "RSH"@,
            Register::R(width, number) => match width {
                Width::Byte => if number == 0 {
                    "Rb0"@
                } else if number == 1 {
                    "Rb1"@
                } else if number == 2 {
                    "Rb2"@
                } else if number == 3 {
                    "Rb3"@
                } else if number == 4 {
                    "Rb4"@
                } else if number == 5 {
                    "Rb5"@
                } else if number == 6 {
                    "Rb6"@
                } else if number == 7 {
                    "Rb7"@
                } else if number == 8 {
                    "Rb8"@
                } else {
                    "Rb9"@
                },
                Width::Word => if number == 0 {
                    "R0"@
                } else if number == 1 {
                    "R1"@
                } else if number == 2 {
                    "R2"@
                } else if number == 3 {
                    "R3"@
                } else if number == 4 {
                    "R4"@
                } else if number == 5 {
                    "R5"@
                } else if number == 6 {
                    "R6"@
                } else if number == 7 {
                    "R7"@
                } else if number == 8 {
                    "R8"@
                } else {
                    "R9"@
                },
            },
        }
    }

    /// This register's canonical text name.
    pub fn name(&self) -> (s: String)
        requires
            self.wf(),
        ensures
            s@ == self.spec_name(),
    {
        let text: &str = match self {
            Register::RINFO => "RINFO",
            Register::RIP => "RIP",
            Register::RINT => "RINT",
            Register::Flags => "Flags",
            Register::RSB => "RSB",
            Register::RSH => "RSH",
            Register::R(width, number) => match width {
                Width::Byte => if *number == 0 {
                    "Rb0"
                } else if *number == 1 {
                    "Rb1"
                } else if *number == 2 {
                    "Rb2"
                } else if *number == 3 {
                    "Rb3"
                } else if *number == 4 {
                    "Rb4"
                } else if *number == 5 {
                    "Rb5"
                } else if *number == 6 {
                    "Rb6"
                } else if *number == 7 {
                    "Rb7"
                } else if *number == 8 {
                    "Rb8"
                } else {
                    "Rb9"
                },
                Width::Word => if *number == 0 {
                    "R0"
                } else if *number == 1 {
                    "R1"
                } else if *number == 2 {
                    "R2"
                } else if *number == 3 {
                    "R3"
                } else if *number == 4 {
                    "R4"
                } else if *number == 5 {
                    "R5"
                } else if *number == 6 {
                    "R6"
                } else if *number == 7 {
                    "R7"
                } else if *number == 8 {
                    "R8"
                } else {
                    "R9"
                },
            },
        };
        text.to_owned()
    }

    /// Which register a piece of text names, compared case-insensitively
    /// against every canonical spelling; `None` when no register answers to
    /// it.
    pub open spec fn spec_parse(s: Seq<char>) -> Option<Register> {
        if s.len() == 5 && spec_letter(s[0], 'r', 'R') && spec_letter(s[1], 'i', 'I')
            && spec_letter(s[2], 'n', 'N') && spec_letter(s[3], 'f', 'F')
            && spec_letter(s[4], 'o', 'O') {
            Some(Register::RINFO)
        } else if s.len() == 5 && spec_letter(s[0], 'f', 'F') && spec_letter(s[1], 'l', 'L')
            && spec_letter(s[2], 'a', 'A') && spec_letter(s[3], 'g', 'G')
            && spec_letter(s[4], 's', 'S') {
            Some(Register::Flags)
        } else if s.len() == 4 && spec_letter(s[0], 'r', 'R') && spec_letter(s[1], 'i', 'I')
            && spec_letter(s[2], 'n', 'N') && spec_letter(s[3], 't', 'T') {
            Some(Register::RINT)
        } else if s.len() == 3 && spec_letter(s[0], 'r', 'R') && spec_letter(s[1], 'i', 'I')
            && spec_letter(s[2], 'p', 'P') {
            Some(Register::RIP)
        } else if s.len() == 3 && spec_letter(s[0], 'r', 'R') && spec_letter(s[1], 's', 'S')
            && spec_letter(s[2], 'b', 'B') {
            Some(Register::RSB)
        } else if s.len() == 3 && spec_letter(s[0], 'r', 'R') && spec_letter(s[1], 's', 'S')
            && spec_letter(s[2], 'h', 'H') {
            Some(Register::RSH)
        } else if s.len() == 2 && spec_letter(s[0], 'r', 'R') && spec_is_digit(s[1]) {
            Some(Register::R(Width::Word, spec_digit_value(s[1])))
        } else if s.len() == 3 && spec_letter(s[0], 'r', 'R') && spec_letter(s[1], 'b', 'B')
            && spec_is_digit(s[2]) {
            Some(Register::R(Width::Byte, spec_digit_value(s[2])))
        } else {
            None
        }
    }

    /// Parse a register name, accepting any casing of the canonical
    /// spellings; anything else is an invalid-register error carrying the
    /// offending text.
    pub fn from_str(s: &str) -> (r: Result<Register, Error>)
        ensures
            match Register::spec_parse(s@) {
                Some(reg) => r == Ok::<Register, Error>(reg),
                None => r matches Err(Error::InvalidRegister(text)) && text@ == s@,
            },
    {
        let n = s.unicode_len();
        if n == 5 && letter(s.get_char(0), 'r', 'R') && letter(s.get_char(1), 'i', 'I')
            && letter(s.get_char(2), 'n', 'N') && letter(s.get_char(3), 'f', 'F')
            && letter(s.get_char(4), 'o', 'O') {
            Ok(Register::RINFO)
        } else if n == 5 && letter(s.get_char(0), 'f', 'F') && letter(s.get_char(1), 'l', 'L')
            && letter(s.get_char(2), 'a', 'A') && letter(s.get_char(3), 'g', 'G')
            && letter(s.get_char(4), 's', 'S') {
            Ok(Register::Flags)
        } else if n == 4 && letter(s.get_char(0), 'r', 'R') && letter(s.get_char(1), 'i', 'I')
            && letter(s.get_char(2), 'n', 'N') && letter(s.get_char(3), 't', 'T') {
            Ok(Register::RINT)
        } else if n == 3 && letter(s.get_char(0), 'r', 'R') && letter(s.get_char(1), 'i', 'I')
            && letter(s.get_char(2), 'p', 'P') {
            Ok(Register::RIP)
        } else if n == 3 && letter(s.get_char(0), 'r', 'R') && letter(s.get_char(1), 's', 'S')
            && letter(s.get_char(2), 'b', 'B') {
            Ok(Register::RSB)
        } else if n == 3 && letter(s.get_char(0), 'r', 'R') && letter(s.get_char(1), 's', 'S')
            && letter(s.get_char(2), 'h', 'H') {
            Ok(Register::RSH)
        } else if n == 2 && letter(s.get_char(0), 'r', 'R') && is_digit(s.get_char(1)) {
            Ok(Register::R(Width::Word, digit_value(s.get_char(1))))
        } else if n == 3 && letter(s.get_char(0), 'r', 'R') && letter(s.get_char(1), 'b', 'B')
            && is_digit(s.get_char(2)) {
            Ok(Register::R(Width::Byte, digit_value(s.get_char(2))))
        } else {
            Err(Error::InvalidRegister(s.to_owned()))
        }
    }
}

/// Slot ids are injective over meaningful registers: decoding the low-nibble
/// id of `r` at the width of `r` gives `r` back.
pub proof fn lemma_src_id_round_trip(w: Width, r: Register)
    requires
        r.wf(),
        r.spec_width() == w,
    ensures
        Register::spec_from_src(w, r.spec_compile_src()) == r,
{
}

/// The high-nibble form round-trips the same way: decoding the destination
/// byte of `r` at the width of `r` gives `r` back.
pub proof fn lemma_dest_id_round_trip(w: Width, r: Register)
    requires
        r.wf(),
        r.spec_width() == w,
    ensures
        Register::spec_from_dest(w, r.spec_compile_dest()) == r,
{
}

/// Register names round-trip: parsing the canonical spelling of any
/// meaningful register gives that register back.
pub proof fn lemma_parse_inverts_name(r: Register)
    requires
        r.wf(),
    ensures
        Register::spec_parse(r.spec_name()) == Some(r),
{
    reveal_strlit("RINFO");
    reveal_strlit("RIP");
    reveal_strlit("RINT");
    reveal_strlit("Flags");
    reveal_strlit("RSB");
    reveal_strlit("RSH");
    reveal_strlit("R0");
    reveal_strlit("R1");
    reveal_strlit("R2");
    reveal_strlit("R3");
    reveal_strlit("R4");
    reveal_strlit("R5");
    reveal_strlit("R6");
    reveal_strlit("R7");
    reveal_strlit("R8");
    reveal_strlit("R9");
    reveal_strlit("Rb0");
    reveal_strlit("Rb1");
    reveal_strlit("Rb2");
    reveal_strlit("Rb3");
    reveal_strlit("Rb4");
    reveal_strlit("Rb5");
    reveal_strlit("Rb6");
    reveal_strlit("Rb7");
    reveal_strlit("Rb8");
    reveal_strlit("Rb9");
}

} // verus!
