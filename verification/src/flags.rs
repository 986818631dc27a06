//! Condition bits and the rules that derive them from a result byte.

use vstd::prelude::*;

verus! {

/// Bit `i` of `byte`, counted from the least significant bit.
pub open spec fn bit(byte: u8, i: u8) -> bool {
    (byte >> i) & 1 == 1
}

/// `byte` rotated one bit to the left: every bit moves one place up, and the
/// highest bit comes in at the bottom.
pub open spec fn rotate_left(byte: u8) -> u8 {
    ((byte as int * 2) % 256 + byte as int / 128) as u8
}

/// `byte` rotated one bit to the right: every bit moves one place down, and
/// the lowest bit comes in at the top.
pub open spec fn rotate_right(byte: u8) -> u8 {
    (byte as int / 2 + (byte as int % 2) * 128) as u8
}

/// How many of the lowest `n` bits of `byte` are set.
pub open spec fn ones_below(byte: u8, n: nat) -> nat
    decreases n,
{
    if n == 0 {
        0
    } else {
        ones_below(byte, (n - 1) as nat) + if bit(byte, (n - 1) as u8) {
            1nat
        } else {
            0nat
        }
    }
}

/// Whether an even number of the eight bits of `byte` are set.
pub open spec fn parity_even(byte: u8) -> bool {
    ones_below(byte, 8) % 2 == 0
}

/// Tells whether `byte` has an even number of set bits.
pub fn is_parity_even(byte: u8) -> (even: bool)
    ensures
        even == parity_even(byte),
{
    let mut count: u8 = 0;
    let mut i: u8 = 0;
    while i < 8
        invariant
            i <= 8,
            count <= i,
            count == ones_below(byte, i as nat),
        decreases 8 - i,
    {
        assert(((byte & (1u8 << i)) != 0) == bit(byte, i)) by (bit_vector)
            requires
                i < 8,
        ;
        if (byte & (1u8 << i)) != 0 {
            count += 1;
        }
        i += 1;
    }
    count % 2 == 0
}

/// The five condition bits.
#[derive(Clone, Copy, Debug, PartialEq, Eq, Structural)]
pub struct ConditionCodes {
    /// Sign: bit 7 of the last flagged result.
    pub s: bool,
    /// Zero: the last flagged result was zero.
    pub z: bool,
    /// Parity: the last flagged result had an even number of set bits.
    pub p: bool,
    /// Carry: the last carrying operation carried or borrowed.
    pub cy: bool,
    /// Auxiliary carry. Only restoring the status word changes it.
    pub ac: bool,
}

impl ConditionCodes {
    /// The condition bits with Zero, Sign and Parity taken from `result`;
    /// Carry and Auxiliary Carry stay as they are.
    pub open spec fn with_result(self, result: u8) -> ConditionCodes {
        ConditionCodes {
            z: result == 0,
            s: bit(result, 7),
            p: parity_even(result),
            ..self
        }
    }

    /// The condition bits as the low byte of the status word:
    /// Sign is worth 128, Zero 64, Auxiliary Carry 16, Parity 4 and Carry 1;
    /// bit 1 is always set, bits 3 and 5 never.
    pub open spec fn status_byte(self) -> u8 {
        ((if self.s { 128int } else { 0 })
            + (if self.z { 64int } else { 0 })
            + (if self.ac { 16int } else { 0 })
            + (if self.p { 4int } else { 0 })
            + 2
            + (if self.cy { 1int } else { 0 })) as u8
    }

    /// The condition bits that a status byte holds. Bits 1, 3 and 5 of the
    /// byte are not looked at.
    pub open spec fn from_status_byte(byte: u8) -> ConditionCodes {
        ConditionCodes {
            s: bit(byte, 7),
            z: bit(byte, 6),
            ac: bit(byte, 4),
            p: bit(byte, 2),
            cy: bit(byte, 0),
        }
    }

    /// All condition bits cleared.
    pub fn new() -> (cc: ConditionCodes)
        ensures
            cc == (ConditionCodes { s: false, z: false, p: false, cy: false, ac: false }),
    {
        ConditionCodes { s: false, z: false, p: false, cy: false, ac: false }
    }

    /// Recomputes Zero, Sign and Parity from `result`.
    pub fn update(&mut self, result: u8)
        ensures
            *final(self) == old(self).with_result(result),
    {
        assert(((result & 0x80u8) != 0) == bit(result, 7)) by (bit_vector);
        self.z = result == 0;
        self.s = (result & 0x80) != 0;
        self.p = is_parity_even(result);
    }

    /// Packs the condition bits into a status byte.
    pub fn to_byte(&self) -> (byte: u8)
        ensures
            byte == self.status_byte(),
    {
        let s: u8 = if self.s { 0x80 } else { 0 };
        let z: u8 = if self.z { 0x40 } else { 0 };
        let ac: u8 = if self.ac { 0x10 } else { 0 };
        let p: u8 = if self.p { 0x04 } else { 0 };
        let cy: u8 = if self.cy { 0x01 } else { 0 };
        assert((s | z | ac | p | 0x02u8 | cy) == s + z + ac + p + 2 + cy) by (bit_vector)
            requires
                s == 0x80 || s == 0,
                z == 0x40 || z == 0,
                ac == 0x10 || ac == 0,
                p == 0x04 || p == 0,
                cy == 0x01 || cy == 0,
        ;
        s | z | ac | p | 0x02 | cy
    }

    /// Unpacks a status byte into condition bits.
    pub fn from_byte(byte: u8) -> (cc: ConditionCodes)
        ensures
            cc == ConditionCodes::from_status_byte(byte),
    {
        assert(((byte & 0x80u8) != 0) == bit(byte, 7) && ((byte & 0x40u8) != 0) == bit(byte, 6) && ((
        byte & 0x10u8) != 0) == bit(byte, 4) && ((byte & 0x04u8) != 0) == bit(byte, 2) && ((byte
            & 0x01u8) != 0) == bit(byte, 0)) by (bit_vector);
        ConditionCodes {
            s: (byte & 0x80) != 0,
            z: (byte & 0x40) != 0,
            ac: (byte & 0x10) != 0,
            p: (byte & 0x04) != 0,
            cy: (byte & 0x01) != 0,
        }
    }
}

/// Unpacking a packed status byte gives back the condition bits.
pub proof fn status_byte_round_trip(cc: ConditionCodes)
    ensures
        ConditionCodes::from_status_byte(cc.status_byte()) == cc,
{
    let s: bool = cc.s;
    let z: bool = cc.z;
    let ac: bool = cc.ac;
    let p: bool = cc.p;
    let cy: bool = cc.cy;
    assert({
        let byte: u8 = ((if s { 128int } else { 0 }) + (if z { 64int } else { 0 }) + (if ac {
            16int
        } else {
            0
        }) + (if p { 4int } else { 0 }) + 2 + (if cy { 1int } else { 0 })) as u8;
        bit(byte, 7) == s && bit(byte, 6) == z && bit(byte, 4) == ac && bit(byte, 2) == p && bit(
            byte,
            0,
        ) == cy
    }) by (bit_vector);
}

} // verus!
