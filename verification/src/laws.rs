//! Laws of the instruction set, proved of the machine's model.

use vstd::prelude::*;
use crate::error::CpuError;
use crate::flags::{bit, parity_even, rotate_left, status_byte_round_trip, ConditionCodes};
use crate::instruction::{decode, Instruction, StackPair};
use crate::state::{State, TOP};

verus! {

/// Loading an image and executing a step keep memory at its full size.
pub proof fn well_formed_is_preserved(s: State, image: Seq<u8>)
    requires
        s.well_formed(),
    ensures
        s.load(image) matches Ok(t) ==> t.well_formed(),
        s.step() matches Ok(t) ==> t.well_formed(),
{
}

/// `ADI` leaves in the accumulator its old value plus the immediate byte,
/// modulo 256. Carry is set exactly when the sum passed 255, Zero exactly
/// when the result is zero, Sign exactly when bit 7 of the result is set,
/// and Parity exactly when the result has an even number of set bits.
pub proof fn adi_adds_modulo_256(s: State, data: u8)
    requires
        s.well_formed(),
        decode(s.opcode()) == Some(Instruction::Adi),
        s.immediate() == data,
        s.step() is Ok,
    ensures
        s.step() matches Ok(t) && {
            let total: int = s.registers.a as int + data as int;
            &&& t.registers.a as int == total % 256
            &&& t.cc.cy == (total >= 256)
            &&& t.cc.z == (t.registers.a == 0)
            &&& t.cc.s == bit(t.registers.a, 7)
            &&& t.cc.p == parity_even(t.registers.a)
        },
{
}

/// `CPI` with an immediate byte greater than the accumulator leaves the
/// accumulator as it was and sets Carry.
pub proof fn cpi_of_greater_sets_carry(s: State, data: u8)
    requires
        s.well_formed(),
        decode(s.opcode()) == Some(Instruction::Cpi),
        s.immediate() == data,
        data > s.registers.a,
        s.step() is Ok,
    ensures
        s.step() matches Ok(t) && t.registers.a == s.registers.a && t.cc.cy,
{
}

/// `PUSH` of one pair followed at once by `POP` into another hands the two
/// bytes over and brings the stack pointer back. Where both name the same
/// pair, status word included, every register and condition bit is as it
/// was before the `PUSH`.
pub proof fn push_then_pop(s: State, pair: StackPair, target: StackPair)
    requires
        s.well_formed(),
        decode(s.opcode()) == Some(Instruction::Push(pair)),
        s.step() matches Ok(t) && decode(t.opcode()) == Some(Instruction::Pop(target))
            && t.step() is Ok,
    ensures
        s.steps(2) matches Ok(u) && {
            &&& u.sp == s.sp
            &&& u.pc == s.pc + 2
            &&& u.memory == s.step()->Ok_0.memory
            &&& u.stack_high(target) == s.stack_high(pair)
            &&& target != StackPair::PSW ==> u.stack_low(target) == s.stack_low(pair)
            &&& target == StackPair::PSW ==> u.cc == ConditionCodes::from_status_byte(
                s.stack_low(pair),
            )
            &&& target == pair ==> u.registers == s.registers && u.cc == s.cc
        },
{
    reveal_with_fuel(State::steps, 3);
    status_byte_round_trip(s.cc);
}

/// `CALL` followed at once by `RET` continues with the instruction after
/// the `CALL`, with the stack pointer, the registers and the condition bits
/// as they were before it.
pub proof fn call_then_ret(s: State)
    requires
        s.well_formed(),
        decode(s.opcode()) == Some(Instruction::Call),
        s.step() matches Ok(t) && decode(t.opcode()) == Some(Instruction::Ret),
    ensures
        s.steps(2) matches Ok(u) && {
            &&& u.pc == s.pc + 3
            &&& u.sp == s.sp
            &&& u.registers == s.registers
            &&& u.cc == s.cc
            &&& u.memory == s.step()->Ok_0.memory
        },
{
    reveal_with_fuel(State::steps, 3);
}

/// `XCHG` twice in a row changes nothing but the program counter.
pub proof fn xchg_twice_restores(s: State)
    requires
        s.well_formed(),
        decode(s.opcode()) == Some(Instruction::Xchg),
        s.step() matches Ok(t) && decode(t.opcode()) == Some(Instruction::Xchg) && t.step() is Ok,
    ensures
        s.steps(2) == Ok::<State, CpuError>(s.advanced(2)),
{
    reveal_with_fuel(State::steps, 3);
}

/// `byte` rotated to the left `count` times.
pub open spec fn rotate_left_by(byte: u8, count: nat) -> u8
    decreases count,
{
    if count == 0 {
        byte
    } else {
        rotate_left_by(rotate_left(byte), (count - 1) as nat)
    }
}

/// Any number of `RLC` in a row rotate the accumulator that many times and
/// leave in Carry the bit that the last of them rotated out; nothing else
/// changes but the program counter.
pub proof fn rlc_repeated(s: State, count: nat)
    requires
        s.well_formed(),
        1 <= count,
        s.pc + count <= TOP,
        forall|i: int|
            0 <= i < count ==> decode(#[trigger] s.memory[s.pc + i]) == Some(Instruction::Rlc),
    ensures
        s.steps(count) == Ok::<State, CpuError>(
            s.with_accumulator(rotate_left_by(s.registers.a, count)).with_carry(
                bit(rotate_left_by(s.registers.a, (count - 1) as nat), 7),
            ).advanced(count as int),
        ),
    decreases count,
{
    let a: u8 = s.registers.a;
    let t: State = s.with_accumulator(rotate_left(a)).with_carry(bit(a, 7)).advanced(1);
    assert(s.memory[s.pc + 0] == s.opcode());
    assert(s.step() == Ok::<State, CpuError>(t));
    reveal_with_fuel(State::steps, 2);
    reveal_with_fuel(rotate_left_by, 2);
    if count > 1 {
        assert forall|i: int| 0 <= i < count - 1 implies decode(#[trigger] t.memory[t.pc + i])
            == Some(Instruction::Rlc) by {
            assert(t.memory[t.pc + i] == s.memory[s.pc + (i + 1)]);
        }
        rlc_repeated(t, (count - 1) as nat);
        assert(rotate_left_by(a, (count - 1) as nat) == rotate_left_by(
            t.registers.a,
            (count - 2) as nat,
        ));
    }
}

/// Eight `RLC` in a row bring the accumulator back to its value and leave
/// its lowest bit in Carry; nothing else changes but the program counter.
pub proof fn rlc_eight_times(s: State)
    requires
        s.well_formed(),
        s.pc + 8 <= TOP,
        forall|i: int| 0 <= i < 8 ==> decode(#[trigger] s.memory[s.pc + i]) == Some(Instruction::Rlc),
    ensures
        s.steps(8) == Ok::<State, CpuError>(s.with_carry(bit(s.registers.a, 0)).advanced(8)),
{
    let a: u8 = s.registers.a;
    rlc_repeated(s, 8);
    full_rotation(a);
}

/// Eight rotations to the left give a byte back, and the eighth rotates out
/// the bit that was lowest.
proof fn full_rotation(a: u8)
    ensures
        rotate_left_by(a, 8) == a,
        bit(rotate_left_by(a, 7), 7) == bit(a, 0),
{
    let a1: u8 = rotate_left(a);
    let a2: u8 = rotate_left(a1);
    let a3: u8 = rotate_left(a2);
    let a4: u8 = rotate_left(a3);
    let a5: u8 = rotate_left(a4);
    let a6: u8 = rotate_left(a5);
    let a7: u8 = rotate_left(a6);
    assert(rotate_left(a7) == a && bit(a7, 7) == bit(a, 0)) by (bit_vector)
        requires
            a1 == rotate_left(a),
            a2 == rotate_left(a1),
            a3 == rotate_left(a2),
            a4 == rotate_left(a3),
            a5 == rotate_left(a4),
            a6 == rotate_left(a5),
            a7 == rotate_left(a6),
    ;
    reveal_with_fuel(rotate_left_by, 9);
}

/// Eight `RLC` in a row, begun with Carry equal to the lowest bit of the
/// accumulator, restore both the accumulator and Carry.
pub proof fn rlc_eight_times_restores(s: State)
    requires
        s.well_formed(),
        s.pc + 8 <= TOP,
        forall|i: int| 0 <= i < 8 ==> decode(#[trigger] s.memory[s.pc + i]) == Some(Instruction::Rlc),
        s.cc.cy == bit(s.registers.a, 0),
    ensures
        s.steps(8) == Ok::<State, CpuError>(s.advanced(8)),
{
    rlc_eight_times(s);
}

} // verus!
