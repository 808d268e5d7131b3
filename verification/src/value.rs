use vstd::prelude::*;

use crate::register::Width;

verus! {

/// An immediate operand: a width tag and a 16-bit magnitude.
///
/// A `Byte`-tagged value keeps its magnitude within 8 bits; the constructors
/// establish that invariant and nothing mutates a value afterwards.
#[derive(Debug, Clone, Copy, PartialEq, Eq, Structural)]
pub struct Value(Width, u16);

impl Value {
    /// A byte-tagged magnitude fits in 8 bits.
    pub closed spec fn wf(self) -> bool {
        self.0 == Width::Byte ==> self.1 <= 0xFF
    }

    pub closed spec fn spec_width(self) -> Width {
        self.0
    }

    pub closed spec fn spec_value_word(self) -> u16 {
        self.1
    }

    /// The `idx`-th little-endian byte of the magnitude: the low byte at
    /// index 0, the high byte at index 1.
    pub closed spec fn spec_value_byte(self, idx: int) -> u8 {
        if idx == 0 {
            (self.1 % 256) as u8
        } else if idx == 1 {
            (self.1 / 256) as u8
        } else {
            0
        }
    }

    /// An 8-bit immediate.
    pub fn byte(value: u8) -> (v: Value)
        ensures
            v.wf(),
            v.spec_width() == Width::Byte,
            v.spec_value_word() == value as u16,
            v.spec_value_byte(0) == value,
            v.spec_value_byte(1) == 0,
    {
        Value(Width::Byte, value as u16)
    }

    /// A 16-bit immediate.
    pub fn word(value: u16) -> (v: Value)
        ensures
            v.wf(),
            v.spec_width() == Width::Word,
            v.spec_value_word() == value,
            v.spec_value_byte(0) as int == value as int % 256,
            v.spec_value_byte(1) as int == value as int / 256,
    {
        Value(Width::Word, value)
    }

    /// The width tag this value was built with.
    pub fn width(&self) -> (w: Width)
        ensures
            w == self.spec_width(),
    {
        self.0
    }

    /// The `idx`-th little-endian byte of the 16-bit magnitude; only bytes 0
    /// and 1 exist in a 16-bit store.
    pub fn value_byte(&self, idx: usize) -> (b: u8)
        requires
            idx <= 1,
        ensures
            b == self.spec_value_byte(idx as int),
    {
        if idx == 0 {
            (self.1 % 256) as u8
        } else {
            (self.1 / 256) as u8
        }
    }

    /// The full 16-bit magnitude.
    pub fn value_word(&self) -> (w: u16)
        ensures
            w == self.spec_value_word(),
    {
        self.1
    }
}

impl From<u8> for Value {
    /// Wrap an 8-bit quantity as a byte-tagged immediate.
    fn from(value: u8) -> (v: Value) {
        Value::byte(value)
    }
}

impl vstd::std_specs::convert::FromSpecImpl<u8> for Value {
    open spec fn obeys_from_spec() -> bool {
        true
    }

    closed spec fn from_spec(value: u8) -> Value {
        Value(Width::Byte, value as u16)
    }
}

impl From<u16> for Value {
    /// Wrap a 16-bit quantity as a word-tagged immediate.
    fn from(value: u16) -> (v: Value) {
        Value::word(value)
    }
}

impl vstd::std_specs::convert::FromSpecImpl<u16> for Value {
    open spec fn obeys_from_spec() -> bool {
        true
    }

    closed spec fn from_spec(value: u16) -> Value {
        Value(Width::Word, value)
    }
}

} // verus!
