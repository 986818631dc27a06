//! The instruction set: operands, register pairs, and the map from opcode
//! bytes to instructions.

use vstd::prelude::*;

verus! {

/// One of the seven byte registers.
#[derive(Clone, Copy, Debug, PartialEq, Eq, Structural)]
pub enum Register {
    B,
    C,
    D,
    E,
    H,
    L,
    A,
}

/// What a three-bit register field of an opcode selects: a register, or the
/// memory byte whose address is held in H and L.
#[derive(Clone, Copy, Debug, PartialEq, Eq, Structural)]
pub enum Operand {
    Register(Register),
    Memory,
}

/// What a two-bit pair field selects in the sixteen-bit instructions.
#[derive(Clone, Copy, Debug, PartialEq, Eq, Structural)]
pub enum RegisterPair {
    BC,
    DE,
    HL,
    SP,
}

/// What a two-bit pair field selects in `PUSH` and `POP`, where the fourth
/// choice is the status word: the accumulator and the condition bits.
#[derive(Clone, Copy, Debug, PartialEq, Eq, Structural)]
pub enum StackPair {
    BC,
    DE,
    HL,
    PSW,
}

/// The pairs through which `LDAX` addresses memory.
#[derive(Clone, Copy, Debug, PartialEq, Eq, Structural)]
pub enum IndexPair {
    BC,
    DE,
}

/// An instruction as its opcode byte alone determines it. Immediate data and
/// addresses follow the opcode in memory and are read when it executes.
#[derive(Clone, Copy, Debug, PartialEq, Eq, Structural)]
pub enum Instruction {
    Nop,
    Lxi(RegisterPair),
    Mvi(Operand),
    Mov(Operand, Operand),
    Lda,
    Sta,
    Ldax(IndexPair),
    Xchg,
    Add(Operand),
    Adi,
    Ani,
    Cpi,
    Dad(RegisterPair),
    Inr(Operand),
    Dcr(Operand),
    Inx(RegisterPair),
    Ana(Operand),
    Xra(Operand),
    Rlc,
    Rrc,
    Cma,
    Stc,
    Cmc,
    Push(StackPair),
    Pop(StackPair),
    Jmp,
    Jnz,
    Call,
    Ret,
    Out,
    In,
    Ei,
    Di,
}

/// The operand that a register field selects: B, C, D, E, H, L, memory
/// through HL, A, in that order.
pub open spec fn operand_of(field: int) -> Operand {
    if field == 0 {
        Operand::Register(Register::B)
    } else if field == 1 {
        Operand::Register(Register::C)
    } else if field == 2 {
        Operand::Register(Register::D)
    } else if field == 3 {
        Operand::Register(Register::E)
    } else if field == 4 {
        Operand::Register(Register::H)
    } else if field == 5 {
        Operand::Register(Register::L)
    } else if field == 6 {
        Operand::Memory
    } else {
        Operand::Register(Register::A)
    }
}

/// The pair that a pair field selects: BC, DE, HL, SP, in that order.
pub open spec fn pair_of(field: int) -> RegisterPair {
    if field == 0 {
        RegisterPair::BC
    } else if field == 1 {
        RegisterPair::DE
    } else if field == 2 {
        RegisterPair::HL
    } else {
        RegisterPair::SP
    }
}

/// The pair that a pair field selects in `PUSH` and `POP`: BC, DE, HL, PSW,
/// in that order.
pub open spec fn stack_pair_of(field: int) -> StackPair {
    if field == 0 {
        StackPair::BC
    } else if field == 1 {
        StackPair::DE
    } else if field == 2 {
        StackPair::HL
    } else {
        StackPair::PSW
    }
}

/// The instruction that an opcode byte stands for, or `None` where it stands
/// for none.
///
/// An opcode is read as three fields, `qq mmm lll` from the most significant
/// bit down. The middle field names a destination or picks an operation; its
/// upper two bits name a register pair. The low field names a source or picks
/// an instruction group. The byte `0x76`, where `MOV` would name memory
/// twice, is `HLT`: it stands for no instruction here, so a program that
/// reaches it goes no further.
pub open spec fn decode(op: u8) -> Option<Instruction> {
    let quarter: int = op as int / 64;
    let mid: int = (op as int / 8) % 8;
    let low: int = op as int % 8;
    let pair: int = mid / 2;
    if quarter == 0 {
        if low == 0 {
            if mid == 0 {
                Some(Instruction::Nop)
            } else {
                None
            }
        } else if low == 1 {
            if mid % 2 == 0 {
                Some(Instruction::Lxi(pair_of(pair)))
            } else {
                Some(Instruction::Dad(pair_of(pair)))
            }
        } else if low == 2 {
            if mid == 1 {
                Some(Instruction::Ldax(IndexPair::BC))
            } else if mid == 3 {
                Some(Instruction::Ldax(IndexPair::DE))
            } else if mid == 6 {
                Some(Instruction::Sta)
            } else if mid == 7 {
                Some(Instruction::Lda)
            } else {
                None
            }
        } else if low == 3 {
            if mid % 2 == 0 {
                Some(Instruction::Inx(pair_of(pair)))
            } else {
                None
            }
        } else if low == 4 {
            Some(Instruction::Inr(operand_of(mid)))
        } else if low == 5 {
            Some(Instruction::Dcr(operand_of(mid)))
        } else if low == 6 {
            Some(Instruction::Mvi(operand_of(mid)))
        } else {
            if mid == 0 {
                Some(Instruction::Rlc)
            } else if mid == 1 {
                Some(Instruction::Rrc)
            } else if mid == 5 {
                Some(Instruction::Cma)
            } else if mid == 6 {
                Some(Instruction::Stc)
            } else if mid == 7 {
                Some(Instruction::Cmc)
            } else {
                None
            }
        }
    } else if quarter == 1 {
        if mid == 6 && low == 6 {
            None
        } else {
            Some(Instruction::Mov(operand_of(mid), operand_of(low)))
        }
    } else if quarter == 2 {
        if mid == 0 {
            Some(Instruction::Add(operand_of(low)))
        } else if mid == 4 {
            Some(Instruction::Ana(operand_of(low)))
        } else if mid == 5 {
            Some(Instruction::Xra(operand_of(low)))
        } else {
            None
        }
    } else {
        if low == 1 {
            if mid % 2 == 0 {
                Some(Instruction::Pop(stack_pair_of(pair)))
            } else if mid == 1 {
                Some(Instruction::Ret)
            } else {
                None
            }
        } else if low == 2 {
            if mid == 0 {
                Some(Instruction::Jnz)
            } else {
                None
            }
        } else if low == 3 {
            if mid == 0 {
                Some(Instruction::Jmp)
            } else if mid == 2 {
                Some(Instruction::Out)
            } else if mid == 3 {
                Some(Instruction::In)
            } else if mid == 5 {
                Some(Instruction::Xchg)
            } else if mid == 6 {
                Some(Instruction::Di)
            } else if mid == 7 {
                Some(Instruction::Ei)
            } else {
                None
            }
        } else if low == 5 {
            if mid % 2 == 0 {
                Some(Instruction::Push(stack_pair_of(pair)))
            } else if mid == 1 {
                Some(Instruction::Call)
            } else {
                None
            }
        } else if low == 6 {
            if mid == 0 {
                Some(Instruction::Adi)
            } else if mid == 4 {
                Some(Instruction::Ani)
            } else if mid == 7 {
                Some(Instruction::Cpi)
            } else {
                None
            }
        } else {
            None
        }
    }
}

/// The operand named by the low three bits of `field`.
pub fn operand_from_field(field: u8) -> (operand: Operand)
    ensures
        operand == operand_of(field as int % 8),
{
    let selector: u8 = field & 0b0000_0111;
    assert(selector == field % 8) by (bit_vector)
        requires
            selector == field & 0b0000_0111,
    ;
    match selector {
        0 => Operand::Register(Register::B),
        1 => Operand::Register(Register::C),
        2 => Operand::Register(Register::D),
        3 => Operand::Register(Register::E),
        4 => Operand::Register(Register::H),
        5 => Operand::Register(Register::L),
        6 => Operand::Memory,
        _ => Operand::Register(Register::A),
    }
}

/// The instruction that the opcode byte `op` stands for.
pub fn decode_opcode(op: u8) -> (instruction: Option<Instruction>)
    ensures
        instruction == decode(op),
{
    let mid: u8 = (op & 0b0011_1000) >> 3;
    assert(mid == (op / 8) % 8) by (bit_vector)
        requires
            mid == (op & 0b0011_1000) >> 3,
    ;
    match op {
        0x00 => Some(Instruction::Nop),
        0x01 => Some(Instruction::Lxi(RegisterPair::BC)),
        0x11 => Some(Instruction::Lxi(RegisterPair::DE)),
        0x21 => Some(Instruction::Lxi(RegisterPair::HL)),
        0x31 => Some(Instruction::Lxi(RegisterPair::SP)),
        0x09 => Some(Instruction::Dad(RegisterPair::BC)),
        0x19 => Some(Instruction::Dad(RegisterPair::DE)),
        0x29 => Some(Instruction::Dad(RegisterPair::HL)),
        0x39 => Some(Instruction::Dad(RegisterPair::SP)),
        0x03 => Some(Instruction::Inx(RegisterPair::BC)),
        0x13 => Some(Instruction::Inx(RegisterPair::DE)),
        0x23 => Some(Instruction::Inx(RegisterPair::HL)),
        0x33 => Some(Instruction::Inx(RegisterPair::SP)),
        0x0a => Some(Instruction::Ldax(IndexPair::BC)),
        0x1a => Some(Instruction::Ldax(IndexPair::DE)),
        0x32 => Some(Instruction::Sta),
        0x3a => Some(Instruction::Lda),
        0x04 | 0x0c | 0x14 | 0x1c | 0x24 | 0x2c | 0x34 | 0x3c => Some(
            Instruction::Inr(operand_from_field(mid)),
        ),
        0x05 | 0x0d | 0x15 | 0x1d | 0x25 | 0x2d | 0x35 | 0x3d => Some(
            Instruction::Dcr(operand_from_field(mid)),
        ),
        0x06 | 0x0e | 0x16 | 0x1e | 0x26 | 0x2e | 0x36 | 0x3e => Some(
            Instruction::Mvi(operand_from_field(mid)),
        ),
        0x07 => Some(Instruction::Rlc),
        0x0f => Some(Instruction::Rrc),
        0x2f => Some(Instruction::Cma),
        0x37 => Some(Instruction::Stc),
        0x3f => Some(Instruction::Cmc),
        0x76 => None,
        0x40..=0x7f => Some(Instruction::Mov(operand_from_field(mid), operand_from_field(op))),
        0x80..=0x87 => Some(Instruction::Add(operand_from_field(op))),
        0xa0..=0xa7 => Some(Instruction::Ana(operand_from_field(op))),
        0xa8..=0xaf => Some(Instruction::Xra(operand_from_field(op))),
        0xc1 => Some(Instruction::Pop(StackPair::BC)),
        0xd1 => Some(Instruction::Pop(StackPair::DE)),
        0xe1 => Some(Instruction::Pop(StackPair::HL)),
        0xf1 => Some(Instruction::Pop(StackPair::PSW)),
        0xc5 => Some(Instruction::Push(StackPair::BC)),
        0xd5 => Some(Instruction::Push(StackPair::DE)),
        0xe5 => Some(Instruction::Push(StackPair::HL)),
        0xf5 => Some(Instruction::Push(StackPair::PSW)),
        0xc2 => Some(Instruction::Jnz),
        0xc3 => Some(Instruction::Jmp),
        0xc9 => Some(Instruction::Ret),
        0xcd => Some(Instruction::Call),
        0xc6 => Some(Instruction::Adi),
        0xe6 => Some(Instruction::Ani),
        0xfe => Some(Instruction::Cpi),
        0xd3 => Some(Instruction::Out),
        0xdb => Some(Instruction::In),
        0xeb => Some(Instruction::Xchg),
        0xf3 => Some(Instruction::Di),
        0xfb => Some(Instruction::Ei),
        _ => None,
    }
}

} // verus!
