//! The register file, and sixteen-bit values as pairs of bytes.

use vstd::prelude::*;
use crate::instruction::Register;

verus! {

/// The sixteen-bit value whose high byte is `high` and whose low byte is `low`.
pub open spec fn word(high: u8, low: u8) -> u16 {
    (high as int * 256 + low as int) as u16
}

/// The high byte of a sixteen-bit value.
pub open spec fn high_byte(value: u16) -> u8 {
    (value as int / 256) as u8
}

/// The low byte of a sixteen-bit value.
pub open spec fn low_byte(value: u16) -> u8 {
    (value as int % 256) as u8
}

/// Joins two bytes into a sixteen-bit value.
pub fn make_word(high: u8, low: u8) -> (value: u16)
    ensures
        value == word(high, low),
        value == high as int * 256 + low as int,
{
    let value: u16 = ((high as u16) << 8) | (low as u16);
    assert(value == high as int * 256 + low as int) by (bit_vector)
        requires
            value == ((high as u16) << 8) | (low as u16),
    ;
    value
}

/// Takes the high byte of a sixteen-bit value.
pub fn take_high(value: u16) -> (byte: u8)
    ensures
        byte == high_byte(value),
{
    let shifted: u16 = (value & 0xFF00) >> 8;
    assert(shifted == value / 256 && shifted < 256) by (bit_vector)
        requires
            shifted == (value & 0xFF00) >> 8,
    ;
    shifted as u8
}

/// Takes the low byte of a sixteen-bit value.
pub fn take_low(value: u16) -> (byte: u8)
    ensures
        byte == low_byte(value),
{
    let masked: u16 = value & 0x00FF;
    assert(masked == value % 256 && masked < 256) by (bit_vector)
        requires
            masked == value & 0x00FF,
    ;
    masked as u8
}

/// The seven byte registers.
#[derive(Clone, Copy, Debug, PartialEq, Eq, Structural)]
pub struct Registers {
    pub a: u8,
    pub b: u8,
    pub c: u8,
    pub d: u8,
    pub e: u8,
    pub h: u8,
    pub l: u8,
}

impl Registers {
    /// What register `r` holds.
    pub open spec fn value(self, r: Register) -> u8 {
        match r {
            Register::A => self.a,
            Register::B => self.b,
            Register::C => self.c,
            Register::D => self.d,
            Register::E => self.e,
            Register::H => self.h,
            Register::L => self.l,
        }
    }

    /// The register file with `byte` in register `r`.
    pub open spec fn with(self, r: Register, byte: u8) -> Registers {
        match r {
            Register::A => Registers { a: byte, ..self },
            Register::B => Registers { b: byte, ..self },
            Register::C => Registers { c: byte, ..self },
            Register::D => Registers { d: byte, ..self },
            Register::E => Registers { e: byte, ..self },
            Register::H => Registers { h: byte, ..self },
            Register::L => Registers { l: byte, ..self },
        }
    }

    /// All registers zero.
    pub fn new() -> (registers: Registers)
        ensures
            registers == (Registers { a: 0, b: 0, c: 0, d: 0, e: 0, h: 0, l: 0 }),
    {
        Registers { a: 0, b: 0, c: 0, d: 0, e: 0, h: 0, l: 0 }
    }

    /// Reads register `r`.
    pub fn get(&self, r: Register) -> (byte: u8)
        ensures
            byte == self.value(r),
    {
        match r {
            Register::A => self.a,
            Register::B => self.b,
            Register::C => self.c,
            Register::D => self.d,
            Register::E => self.e,
            Register::H => self.h,
            Register::L => self.l,
        }
    }

    /// Writes `byte` to register `r`.
    pub fn set(&mut self, r: Register, byte: u8)
        ensures
            *final(self) == old(self).with(r, byte),
    {
        match r {
            Register::A => self.a = byte,
            Register::B => self.b = byte,
            Register::C => self.c = byte,
            Register::D => self.d = byte,
            Register::E => self.e = byte,
            Register::H => self.h = byte,
            Register::L => self.l = byte,
        }
    }
}

} // verus!
