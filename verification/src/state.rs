//! The machine as a mathematical value, and what each instruction does to it.
//!
//! Everything here is ghost code: the executable processor is proved to
//! follow these functions.

use vstd::prelude::*;
use crate::error::CpuError;
use crate::flags::{bit, rotate_left, rotate_right, ConditionCodes};
use crate::instruction::{decode, IndexPair, Instruction, Operand, RegisterPair, StackPair};
use crate::registers::{high_byte, low_byte, word, Registers};

verus! {

/// The number of bytes of memory.
pub const MEMORY_SIZE: usize = 65_536;

/// The highest address.
pub const TOP: u16 = 0xFFFF;

/// Everything that an instruction can read or change.
pub struct State {
    pub registers: Registers,
    pub memory: Seq<u8>,
    /// The address of the next opcode.
    pub pc: u16,
    /// The address of the top of the stack, which grows downward.
    pub sp: u16,
    pub cc: ConditionCodes,
    pub interrupts_enabled: bool,
}

impl Instruction {
    /// The number of bytes that the instruction occupies: its opcode and the
    /// immediate byte or address that follows it.
    pub open spec fn length(self) -> int {
        match self {
            Instruction::Lxi(_)
            | Instruction::Lda
            | Instruction::Sta
            | Instruction::Jmp
            | Instruction::Jnz
            | Instruction::Call => 3,
            Instruction::Mvi(_)
            | Instruction::Adi
            | Instruction::Ani
            | Instruction::Cpi
            | Instruction::Out
            | Instruction::In => 2,
            _ => 1,
        }
    }
}

impl State {
    /// Memory has exactly [`MEMORY_SIZE`] bytes.
    pub open spec fn well_formed(self) -> bool {
        self.memory.len() == MEMORY_SIZE
    }

    /// The machine after reset: every register, flag and memory byte zero.
    pub open spec fn initial() -> State {
        State {
            registers: Registers { a: 0, b: 0, c: 0, d: 0, e: 0, h: 0, l: 0 },
            memory: Seq::new(MEMORY_SIZE as nat, |i: int| 0u8),
            pc: 0,
            sp: 0,
            cc: ConditionCodes { s: false, z: false, p: false, cy: false, ac: false },
            interrupts_enabled: false,
        }
    }

    /// The machine with `image` copied into memory from address zero up, or
    /// `OutOfBounds` where the image is larger than memory.
    pub open spec fn load(self, image: Seq<u8>) -> Result<State, CpuError> {
        if image.len() <= MEMORY_SIZE {
            Ok(State { memory: image + self.memory.skip(image.len() as int), ..self })
        } else {
            Err(CpuError::OutOfBounds)
        }
    }

    /// The address held in H and L.
    pub open spec fn hl(self) -> u16 {
        word(self.registers.h, self.registers.l)
    }

    /// The byte that `operand` names.
    pub open spec fn operand(self, operand: Operand) -> u8 {
        match operand {
            Operand::Register(r) => self.registers.value(r),
            Operand::Memory => self.memory[self.hl() as int],
        }
    }

    /// The machine with `byte` stored where `operand` names.
    pub open spec fn with_operand(self, operand: Operand, byte: u8) -> State {
        match operand {
            Operand::Register(r) => State { registers: self.registers.with(r, byte), ..self },
            Operand::Memory => State {
                memory: self.memory.update(self.hl() as int, byte),
                ..self
            },
        }
    }

    /// The machine with `byte` in the accumulator.
    pub open spec fn with_accumulator(self, byte: u8) -> State {
        State { registers: Registers { a: byte, ..self.registers }, ..self }
    }

    /// The sixteen-bit value of a register pair: the first-named register is
    /// the high byte.
    pub open spec fn pair(self, pair: RegisterPair) -> u16 {
        match pair {
            RegisterPair::BC => word(self.registers.b, self.registers.c),
            RegisterPair::DE => word(self.registers.d, self.registers.e),
            RegisterPair::HL => word(self.registers.h, self.registers.l),
            RegisterPair::SP => self.sp,
        }
    }

    /// The machine with `value` in a register pair.
    pub open spec fn with_pair(self, pair: RegisterPair, value: u16) -> State {
        let high: u8 = high_byte(value);
        let low: u8 = low_byte(value);
        match pair {
            RegisterPair::BC => State {
                registers: Registers { b: high, c: low, ..self.registers },
                ..self
            },
            RegisterPair::DE => State {
                registers: Registers { d: high, e: low, ..self.registers },
                ..self
            },
            RegisterPair::HL => State {
                registers: Registers { h: high, l: low, ..self.registers },
                ..self
            },
            RegisterPair::SP => State { sp: value, ..self },
        }
    }

    /// The address that `LDAX` reads through `pair`.
    pub open spec fn index(self, pair: IndexPair) -> u16 {
        match pair {
            IndexPair::BC => word(self.registers.b, self.registers.c),
            IndexPair::DE => word(self.registers.d, self.registers.e),
        }
    }

    /// The byte that `PUSH` stores at the higher address.
    pub open spec fn stack_high(self, pair: StackPair) -> u8 {
        match pair {
            StackPair::BC => self.registers.b,
            StackPair::DE => self.registers.d,
            StackPair::HL => self.registers.h,
            StackPair::PSW => self.registers.a,
        }
    }

    /// The byte that `PUSH` stores at the lower address. For the status word
    /// it is the packed condition bits.
    pub open spec fn stack_low(self, pair: StackPair) -> u8 {
        match pair {
            StackPair::BC => self.registers.c,
            StackPair::DE => self.registers.e,
            StackPair::HL => self.registers.l,
            StackPair::PSW => self.cc.status_byte(),
        }
    }

    /// The machine after `POP` has taken `high` and `low` into `pair`.
    pub open spec fn with_stack_pair(self, pair: StackPair, high: u8, low: u8) -> State {
        match pair {
            StackPair::BC => State {
                registers: Registers { b: high, c: low, ..self.registers },
                ..self
            },
            StackPair::DE => State {
                registers: Registers { d: high, e: low, ..self.registers },
                ..self
            },
            StackPair::HL => State {
                registers: Registers { h: high, l: low, ..self.registers },
                ..self
            },
            StackPair::PSW => State {
                registers: Registers { a: high, ..self.registers },
                cc: ConditionCodes::from_status_byte(low),
                ..self
            },
        }
    }

    /// The byte that follows the opcode.
    pub open spec fn immediate(self) -> u8 {
        self.memory[self.pc + 1]
    }

    /// The sixteen-bit value that follows the opcode, low byte first.
    pub open spec fn immediate_word(self) -> u16 {
        word(self.memory[self.pc + 2], self.memory[self.pc + 1])
    }

    /// The machine with the program counter moved `length` bytes on.
    pub open spec fn advanced(self, length: int) -> State {
        State { pc: (self.pc + length) as u16, ..self }
    }

    /// The machine with two bytes pushed: `high` just below the old top of
    /// the stack, `low` below that, and the stack pointer at `low`.
    pub open spec fn pushed(self, high: u8, low: u8) -> State {
        State {
            memory: self.memory.update(self.sp - 1, high).update(self.sp - 2, low),
            sp: (self.sp - 2) as u16,
            ..self
        }
    }

    /// The machine with Zero, Sign and Parity recomputed from `result`.
    pub open spec fn flagged(self, result: u8) -> State {
        State { cc: self.cc.with_result(result), ..self }
    }

    /// The machine with the Carry bit set to `carry`.
    pub open spec fn with_carry(self, carry: bool) -> State {
        State { cc: ConditionCodes { cy: carry, ..self.cc }, ..self }
    }

    /// The accumulator plus `addend`, modulo 256, with Carry set exactly when
    /// the sum passed 255, and Zero, Sign and Parity taken from the result.
    pub open spec fn sum(self, addend: u8) -> State {
        let total: int = self.registers.a as int + addend as int;
        let result: u8 = (total % 256) as u8;
        self.with_accumulator(result).flagged(result).with_carry(total >= 256)
    }

    /// The accumulator replaced by `result` of a logical operation: Carry is
    /// cleared, and Zero, Sign and Parity are taken from the result.
    pub open spec fn logical(self, result: u8) -> State {
        self.with_accumulator(result).flagged(result).with_carry(false)
    }

    /// The accumulator compared with `data`: the flags are those of the
    /// difference modulo 256, Carry is set exactly when the subtraction
    /// borrowed, and the accumulator keeps its value.
    pub open spec fn compared(self, data: u8) -> State {
        let difference: u8 = ((self.registers.a as int - data as int) % 256) as u8;
        self.flagged(difference).with_carry(data > self.registers.a)
    }

    /// Whether `instruction` can execute: all its bytes lie in memory, the
    /// address of the instruction after it fits in sixteen bits unless
    /// control leaves for another address, and a stack access stays inside
    /// the address space.
    pub open spec fn in_bounds(self, instruction: Instruction) -> bool {
        match instruction {
            Instruction::Jmp => self.pc + 2 <= TOP,
            Instruction::Jnz => self.pc + 2 <= TOP && (self.cc.z ==> self.pc + 3 <= TOP),
            Instruction::Call => self.pc + 3 <= TOP && self.sp >= 2,
            Instruction::Ret => self.sp + 2 <= TOP,
            Instruction::Push(_) => self.pc + 1 <= TOP && self.sp >= 2,
            Instruction::Pop(_) => self.pc + 1 <= TOP && self.sp + 2 <= TOP,
            _ => self.pc + instruction.length() <= TOP,
        }
    }

    /// The machine after `instruction`, where it can execute.
    pub open spec fn effect(self, instruction: Instruction) -> State {
        match instruction {
            Instruction::Nop | Instruction::Out | Instruction::In => self.advanced(
                instruction.length(),
            ),
            Instruction::Lxi(pair) => self.with_pair(pair, self.immediate_word()).advanced(3),
            Instruction::Mvi(target) => self.with_operand(target, self.immediate()).advanced(2),
            Instruction::Mov(target, source) => self.with_operand(
                target,
                self.operand(source),
            ).advanced(1),
            Instruction::Lda => self.with_accumulator(
                self.memory[self.immediate_word() as int],
            ).advanced(3),
            Instruction::Sta => State {
                memory: self.memory.update(self.immediate_word() as int, self.registers.a),
                ..self
            }.advanced(3),
            Instruction::Ldax(pair) => self.with_accumulator(
                self.memory[self.index(pair) as int],
            ).advanced(1),
            Instruction::Xchg => State {
                registers: Registers {
                    d: self.registers.h,
                    e: self.registers.l,
                    h: self.registers.d,
                    l: self.registers.e,
                    ..self.registers
                },
                ..self
            }.advanced(1),
            Instruction::Add(source) => self.sum(self.operand(source)).advanced(1),
            Instruction::Adi => self.sum(self.immediate()).advanced(2),
            Instruction::Ana(source) => self.logical(
                self.registers.a & self.operand(source),
            ).advanced(1),
            Instruction::Ani => self.logical(self.registers.a & self.immediate()).advanced(2),
            Instruction::Xra(source) => self.logical(
                self.registers.a ^ self.operand(source),
            ).advanced(1),
            Instruction::Cpi => self.compared(self.immediate()).advanced(2),
            Instruction::Dad(pair) => {
                let total: int = self.hl() as int + self.pair(pair) as int;
                self.with_pair(RegisterPair::HL, (total % 65536) as u16).with_carry(
                    total >= 65536,
                ).advanced(1)
            },
            Instruction::Inr(target) => {
                let result: u8 = ((self.operand(target) as int + 1) % 256) as u8;
                self.with_operand(target, result).flagged(result).advanced(1)
            },
            Instruction::Dcr(target) => {
                let result: u8 = ((self.operand(target) as int - 1) % 256) as u8;
                self.with_operand(target, result).flagged(result).advanced(1)
            },
            Instruction::Inx(pair) => self.with_pair(
                pair,
                ((self.pair(pair) as int + 1) % 65536) as u16,
            ).advanced(1),
            Instruction::Rlc => self.with_accumulator(rotate_left(self.registers.a)).with_carry(
                bit(self.registers.a, 7),
            ).advanced(1),
            Instruction::Rrc => self.with_accumulator(rotate_right(self.registers.a)).with_carry(
                bit(self.registers.a, 0),
            ).advanced(1),
            Instruction::Cma => self.with_accumulator(!self.registers.a).advanced(1),
            Instruction::Stc => self.with_carry(true).advanced(1),
            Instruction::Cmc => self.with_carry(!self.cc.cy).advanced(1),
            Instruction::Push(pair) => self.pushed(
                self.stack_high(pair),
                self.stack_low(pair),
            ).advanced(1),
            Instruction::Pop(pair) => State {
                sp: (self.sp + 2) as u16,
                ..self.with_stack_pair(pair, self.memory[self.sp + 1], self.memory[self.sp as int])
            }.advanced(1),
            Instruction::Jmp => State { pc: self.immediate_word(), ..self },
            Instruction::Jnz => if self.cc.z {
                self.advanced(3)
            } else {
                State { pc: self.immediate_word(), ..self }
            },
            Instruction::Call => {
                let back: u16 = (self.pc + 3) as u16;
                State { pc: self.immediate_word(), ..self.pushed(high_byte(back), low_byte(back)) }
            },
            Instruction::Ret => State {
                pc: word(self.memory[self.sp + 1], self.memory[self.sp as int]),
                sp: (self.sp + 2) as u16,
                ..self
            },
            Instruction::Ei => State { interrupts_enabled: true, ..self }.advanced(1),
            Instruction::Di => State { interrupts_enabled: false, ..self }.advanced(1),
        }
    }

    /// What executing `instruction` gives: the machine after it, or
    /// `OutOfBounds` where it cannot execute.
    pub open spec fn run(self, instruction: Instruction) -> Result<State, CpuError> {
        if self.in_bounds(instruction) {
            Ok(self.effect(instruction))
        } else {
            Err(CpuError::OutOfBounds)
        }
    }

    /// What executing the opcode `op` gives: `UnimplementedOpcode` where the
    /// byte stands for no instruction, else what that instruction gives.
    pub open spec fn execute(self, op: u8) -> Result<State, CpuError> {
        match decode(op) {
            Some(instruction) => self.run(instruction),
            None => Err(CpuError::UnimplementedOpcode(op)),
        }
    }

    /// The opcode at the program counter.
    pub open spec fn opcode(self) -> u8 {
        self.memory[self.pc as int]
    }

    /// What one step gives: the opcode at the program counter is fetched and
    /// executed.
    pub open spec fn step(self) -> Result<State, CpuError> {
        self.execute(self.opcode())
    }

    /// What `count` steps in a row give. The first step that fails ends the
    /// run with its error.
    pub open spec fn steps(self, count: nat) -> Result<State, CpuError>
        decreases count,
    {
        if count == 0 {
            Ok(self)
        } else {
            match self.step() {
                Ok(next) => next.steps((count - 1) as nat),
                Err(error) => Err(error),
            }
        }
    }
}

/// Whether an operation that was to produce `expected` did so: on success the
/// machine is the expected one, on failure the error is the expected one and
/// the machine is as it was.
pub open spec fn follows(
    before: State,
    after: State,
    result: Result<(), CpuError>,
    expected: Result<State, CpuError>,
) -> bool {
    match expected {
        Ok(state) => result is Ok && after == state,
        Err(error) => result == Err::<(), CpuError>(error) && after == before,
    }
}

} // verus!
