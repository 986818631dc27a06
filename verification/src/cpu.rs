//! The executable processor.

use vstd::prelude::*;
use crate::error::CpuError;
use crate::flags::{bit, rotate_left, rotate_right, ConditionCodes};
use crate::instruction::{
    decode_opcode, IndexPair, Instruction, Operand, Register, RegisterPair, StackPair,
};
use crate::registers::{make_word, take_high, take_low, Registers};
use crate::state::{follows, State, MEMORY_SIZE, TOP};

verus! {

/// An Intel 8080 processor together with its memory.
pub struct Intel8080 {
    registers: Registers,
    memory: [u8; MEMORY_SIZE],
    pc: u16,
    sp: u16,
    cc: ConditionCodes,
    interrupts_enable: bool,
}

impl View for Intel8080 {
    type V = State;

    closed spec fn view(&self) -> State {
        State {
            registers: self.registers,
            memory: self.memory@,
            pc: self.pc,
            sp: self.sp,
            cc: self.cc,
            interrupts_enabled: self.interrupts_enable,
        }
    }
}

impl Intel8080 {
    /// The state of a processor always has a full memory.
    pub proof fn view_well_formed(&self)
        ensures
            self@.well_formed(),
    {
    }

    /// A processor after reset: registers, flags and memory zero, program
    /// counter and stack pointer zero, interrupts disabled.
    pub fn new() -> (cpu: Intel8080)
        ensures
            cpu@ == State::initial(),
    {
        let cpu: Intel8080 = Intel8080 {
            registers: Registers::new(),
            memory: [0u8;MEMORY_SIZE],
            pc: 0,
            sp: 0,
            cc: ConditionCodes::new(),
            interrupts_enable: false,
        };
        assert(cpu.memory@ =~= State::initial().memory);
        cpu
    }

    /// The program counter.
    pub fn get_pc(&self) -> (pc: u16)
        ensures
            pc == self@.pc,
    {
        self.pc
    }

    /// The stack pointer.
    pub fn get_sp(&self) -> (sp: u16)
        ensures
            sp == self@.sp,
    {
        self.sp
    }

    /// Points the stack pointer at `sp`.
    pub fn set_sp(&mut self, sp: u16)
        ensures
            final(self)@ == (State { sp, ..old(self)@ }),
    {
        self.sp = sp;
    }

    /// What register `r` holds.
    pub fn get_register(&self, r: Register) -> (byte: u8)
        ensures
            byte == self@.registers.value(r),
    {
        self.registers.get(r)
    }

    /// The condition bits.
    pub fn get_flags(&self) -> (cc: ConditionCodes)
        ensures
            cc == self@.cc,
    {
        self.cc
    }

    /// Whether interrupts are enabled.
    pub fn interrupts_enabled(&self) -> (enabled: bool)
        ensures
            enabled == self@.interrupts_enabled,
    {
        self.interrupts_enable
    }

    /// The memory byte at `address`.
    pub fn read_memory(&self, address: u16) -> (byte: u8)
        ensures
            byte == self@.memory[address as int],
    {
        self.memory[address as usize]
    }

    /// Copies `data` into memory from address zero up. An image larger than
    /// memory is refused with `OutOfBounds`.
    pub fn load(&mut self, data: &[u8]) -> (result: Result<(), CpuError>)
        ensures
            follows(old(self)@, final(self)@, result, old(self)@.load(data@)),
    {
        let end: usize = data.len();
        if end > MEMORY_SIZE {
            return Err(CpuError::OutOfBounds);
        }
        let mut i: usize = 0;
        while i < end
            invariant
                i <= end <= MEMORY_SIZE,
                end == data@.len(),
                self.memory@ =~= data@.take(i as int) + old(self).memory@.skip(i as int),
                self.registers == old(self).registers,
                self.pc == old(self).pc,
                self.sp == old(self).sp,
                self.cc == old(self).cc,
                self.interrupts_enable == old(self).interrupts_enable,
            decreases end - i,
        {
            self.memory[i] = data[i];
            i += 1;
        }
        assert(data@.take(end as int) =~= data@);
        Ok(())
    }

    /// The opcode at the program counter.
    fn fetch(&self) -> (op: u8)
        ensures
            op == self@.opcode(),
    {
        self.memory[self.pc as usize]
    }

    /// Whether `length` more bytes from the program counter on, and the
    /// address after them, lie inside the address space.
    fn fits(&self, length: u16) -> (ok: bool)
        requires
            length <= 3,
        ensures
            ok == (self@.pc + length <= TOP),
    {
        self.pc <= TOP - length
    }

    /// Moves the program counter `length` bytes on.
    fn advance(&mut self, length: u16)
        requires
            old(self)@.pc + length <= TOP,
        ensures
            final(self)@ == old(self)@.advanced(length as int),
    {
        self.pc += length;
    }

    /// Steps over an instruction of `length` bytes that changes nothing but
    /// the program counter.
    fn skip(&mut self, length: u16) -> (result: Result<(), CpuError>)
        requires
            length <= 3,
        ensures
            follows(
                old(self)@,
                final(self)@,
                result,
                if old(self)@.pc + length <= TOP {
                    Ok(old(self)@.advanced(length as int))
                } else {
                    Err(CpuError::OutOfBounds)
                },
            ),
    {
        if !self.fits(length) {
            return Err(CpuError::OutOfBounds);
        }
        self.advance(length);
        Ok(())
    }

    /// The byte that follows the opcode.
    fn immediate(&self) -> (byte: u8)
        requires
            self@.pc + 1 <= TOP,
        ensures
            byte == self@.immediate(),
    {
        self.memory[(self.pc + 1) as usize]
    }

    /// The sixteen-bit value that follows the opcode, low byte first.
    fn immediate_word(&self) -> (value: u16)
        requires
            self@.pc + 2 <= TOP,
        ensures
            value == self@.immediate_word(),
    {
        let low: u8 = self.memory[(self.pc + 1) as usize];
        let high: u8 = self.memory[(self.pc + 2) as usize];
        make_word(high, low)
    }

    /// The address held in H and L.
    fn hl(&self) -> (address: u16)
        ensures
            address == self@.hl(),
    {
        make_word(self.registers.h, self.registers.l)
    }

    /// Reads a register, or the memory byte that H and L address.
    fn read_operand(&self, operand: Operand) -> (byte: u8)
        ensures
            byte == self@.operand(operand),
    {
        match operand {
            Operand::Register(r) => self.registers.get(r),
            Operand::Memory => {
                let offset: u16 = self.hl();
                self.memory[offset as usize]
            },
        }
    }

    /// Writes a register, or the memory byte that H and L address.
    fn write_operand(&mut self, operand: Operand, byte: u8)
        ensures
            final(self)@ == old(self)@.with_operand(operand, byte),
    {
        match operand {
            Operand::Register(r) => self.registers.set(r, byte),
            Operand::Memory => {
                let offset: u16 = self.hl();
                self.memory[offset as usize] = byte;
            },
        }
    }

    /// Reads a register pair.
    fn read_pair(&self, pair: RegisterPair) -> (value: u16)
        ensures
            value == self@.pair(pair),
    {
        match pair {
            RegisterPair::BC => make_word(self.registers.b, self.registers.c),
            RegisterPair::DE => make_word(self.registers.d, self.registers.e),
            RegisterPair::HL => make_word(self.registers.h, self.registers.l),
            RegisterPair::SP => self.sp,
        }
    }

    /// Writes a register pair.
    fn write_pair(&mut self, pair: RegisterPair, value: u16)
        ensures
            final(self)@ == old(self)@.with_pair(pair, value),
    {
        match pair {
            RegisterPair::BC => {
                self.registers.b = take_high(value);
                self.registers.c = take_low(value);
            },
            RegisterPair::DE => {
                self.registers.d = take_high(value);
                self.registers.e = take_low(value);
            },
            RegisterPair::HL => {
                self.registers.h = take_high(value);
                self.registers.l = take_low(value);
            },
            RegisterPair::SP => {
                self.sp = value;
            },
        }
    }

    /// Recomputes Zero, Sign and Parity from `byte`. Carry and Auxiliary
    /// Carry are left alone: each instruction sets them itself.
    fn update_flags(&mut self, byte: u8)
        ensures
            final(self)@ == old(self)@.flagged(byte),
    {
        self.cc.update(byte);
    }

    /// Stores `high` just below the top of the stack and `low` below that,
    /// and lowers the stack pointer by two.
    fn push_bytes(&mut self, high: u8, low: u8)
        requires
            old(self)@.sp >= 2,
        ensures
            final(self)@ == old(self)@.pushed(high, low),
    {
        self.memory[(self.sp - 1) as usize] = high;
        self.memory[(self.sp - 2) as usize] = low;
        self.sp -= 2;
    }

    /// `LXI`: loads the sixteen-bit immediate into a register pair or the
    /// stack pointer. The second byte of the instruction is the low byte.
    /// Condition bits affected: none.
    fn lxi(&mut self, pair: RegisterPair) -> (result: Result<(), CpuError>)
        ensures
            follows(old(self)@, final(self)@, result, old(self)@.run(Instruction::Lxi(pair))),
    {
        if !self.fits(3) {
            return Err(CpuError::OutOfBounds);
        }
        let data: u16 = self.immediate_word();
        self.write_pair(pair, data);
        self.advance(3);
        Ok(())
    }

    /// `MVI`: stores the immediate byte in a register or memory byte.
    /// Condition bits affected: none.
    fn mvi(&mut self, target: Operand) -> (result: Result<(), CpuError>)
        ensures
            follows(old(self)@, final(self)@, result, old(self)@.run(Instruction::Mvi(target))),
    {
        if !self.fits(2) {
            return Err(CpuError::OutOfBounds);
        }
        let data: u8 = self.immediate();
        self.write_operand(target, data);
        self.advance(2);
        Ok(())
    }

    /// `MOV`: copies one byte from `source` to `target`; the source keeps
    /// its value. Condition bits affected: none.
    fn mov(&mut self, target: Operand, source: Operand) -> (result: Result<(), CpuError>)
        ensures
            follows(old(self)@, final(self)@, result, old(self)@.run(Instruction::Mov(target, source))),
    {
        if !self.fits(1) {
            return Err(CpuError::OutOfBounds);
        }
        let data: u8 = self.read_operand(source);
        self.write_operand(target, data);
        self.advance(1);
        Ok(())
    }

    /// `STA`: stores the accumulator at the address that follows the
    /// opcode. Condition bits affected: none.
    fn sta(&mut self) -> (result: Result<(), CpuError>)
        ensures
            follows(old(self)@, final(self)@, result, old(self)@.run(Instruction::Sta)),
    {
        if !self.fits(3) {
            return Err(CpuError::OutOfBounds);
        }
        let offset: u16 = self.immediate_word();
        self.memory[offset as usize] = self.registers.a;
        self.advance(3);
        Ok(())
    }

    /// `LDA`: loads the accumulator from the address that follows the
    /// opcode. Condition bits affected: none.
    fn lda(&mut self) -> (result: Result<(), CpuError>)
        ensures
            follows(old(self)@, final(self)@, result, old(self)@.run(Instruction::Lda)),
    {
        if !self.fits(3) {
            return Err(CpuError::OutOfBounds);
        }
        let offset: u16 = self.immediate_word();
        self.registers.a = self.memory[offset as usize];
        self.advance(3);
        Ok(())
    }

    /// `LDAX`: loads the accumulator from the address held in B and C, or
    /// in D and E. Condition bits affected: none.
    fn ldax(&mut self, pair: IndexPair) -> (result: Result<(), CpuError>)
        ensures
            follows(old(self)@, final(self)@, result, old(self)@.run(Instruction::Ldax(pair))),
    {
        if !self.fits(1) {
            return Err(CpuError::OutOfBounds);
        }
        let offset: u16 = match pair {
            IndexPair::BC => make_word(self.registers.b, self.registers.c),
            IndexPair::DE => make_word(self.registers.d, self.registers.e),
        };
        self.registers.a = self.memory[offset as usize];
        self.advance(1);
        Ok(())
    }

    /// `XCHG`: exchanges H and L with D and E.
    /// Condition bits affected: none.
    fn xchg(&mut self) -> (result: Result<(), CpuError>)
        ensures
            follows(old(self)@, final(self)@, result, old(self)@.run(Instruction::Xchg)),
    {
        if !self.fits(1) {
            return Err(CpuError::OutOfBounds);
        }
        let d_prev: u8 = self.registers.d;
        let e_prev: u8 = self.registers.e;
        self.registers.d = self.registers.h;
        self.registers.e = self.registers.l;
        self.registers.h = d_prev;
        self.registers.l = e_prev;
        self.advance(1);
        Ok(())
    }

    /// Adds `addend` to the accumulator modulo 256 and sets Carry, Zero,
    /// Sign and Parity by the sum.
    fn accumulate(&mut self, addend: u8)
        ensures
            final(self)@ == old(self)@.sum(addend),
    {
        let total: u16 = self.registers.a as u16 + addend as u16;
        let result: u8 = take_low(total);
        self.registers.a = result;
        self.update_flags(result);
        self.cc.cy = total > 0xFF;
    }

    /// Puts `result` of a logical operation in the accumulator, clears
    /// Carry and sets Zero, Sign and Parity by the result.
    fn combine(&mut self, result: u8)
        ensures
            final(self)@ == old(self)@.logical(result),
    {
        self.registers.a = result;
        self.update_flags(result);
        self.cc.cy = false;
    }

    /// `ADD`: adds a register or memory byte to the accumulator.
    /// Condition bits affected: Carry, Sign, Zero, Parity.
    fn add(&mut self, source: Operand) -> (result: Result<(), CpuError>)
        ensures
            follows(old(self)@, final(self)@, result, old(self)@.run(Instruction::Add(source))),
    {
        if !self.fits(1) {
            return Err(CpuError::OutOfBounds);
        }
        let data: u8 = self.read_operand(source);
        self.accumulate(data);
        self.advance(1);
        Ok(())
    }

    /// `ADI`: adds the immediate byte to the accumulator.
    /// Condition bits affected: Carry, Sign, Zero, Parity.
    fn adi(&mut self) -> (result: Result<(), CpuError>)
        ensures
            follows(old(self)@, final(self)@, result, old(self)@.run(Instruction::Adi)),
    {
        if !self.fits(2) {
            return Err(CpuError::OutOfBounds);
        }
        let data: u8 = self.immediate();
        self.accumulate(data);
        self.advance(2);
        Ok(())
    }

    /// `ANA`: ANDs a register or memory byte into the accumulator, bit by
    /// bit. Carry is reset. Condition bits affected: Carry, Zero, Sign,
    /// Parity.
    fn ana(&mut self, source: Operand) -> (result: Result<(), CpuError>)
        ensures
            follows(old(self)@, final(self)@, result, old(self)@.run(Instruction::Ana(source))),
    {
        if !self.fits(1) {
            return Err(CpuError::OutOfBounds);
        }
        let data: u8 = self.read_operand(source);
        self.combine(self.registers.a & data);
        self.advance(1);
        Ok(())
    }

    /// `ANI`: ANDs the immediate byte into the accumulator. Carry is reset.
    /// Condition bits affected: Carry, Zero, Sign, Parity.
    fn ani(&mut self) -> (result: Result<(), CpuError>)
        ensures
            follows(old(self)@, final(self)@, result, old(self)@.run(Instruction::Ani)),
    {
        if !self.fits(2) {
            return Err(CpuError::OutOfBounds);
        }
        let data: u8 = self.immediate();
        self.combine(self.registers.a & data);
        self.advance(2);
        Ok(())
    }

    /// `XRA`: exclusive-ORs a register or memory byte into the accumulator,
    /// bit by bit. Carry is reset. Condition bits affected: Carry, Zero,
    /// Sign, Parity.
    fn xra(&mut self, source: Operand) -> (result: Result<(), CpuError>)
        ensures
            follows(old(self)@, final(self)@, result, old(self)@.run(Instruction::Xra(source))),
    {
        if !self.fits(1) {
            return Err(CpuError::OutOfBounds);
        }
        let data: u8 = self.read_operand(source);
        self.combine(self.registers.a ^ data);
        self.advance(1);
        Ok(())
    }

    /// `CPI`: compares the immediate byte with the accumulator by
    /// subtracting it, and sets the condition bits by the difference; the
    /// accumulator keeps its value. Zero is set exactly when the two are
    /// equal, Carry exactly when the immediate byte is the greater.
    /// Condition bits affected: Carry, Zero, Sign, Parity.
    fn cpi(&mut self) -> (result: Result<(), CpuError>)
        ensures
            follows(old(self)@, final(self)@, result, old(self)@.run(Instruction::Cpi)),
    {
        if !self.fits(2) {
            return Err(CpuError::OutOfBounds);
        }
        let data: u8 = self.immediate();
        let a: u8 = self.registers.a;
        let difference: u8 = a.wrapping_sub(data);
        self.update_flags(difference);
        self.cc.cy = data > a;
        self.advance(2);
        Ok(())
    }

    /// `DAD`: adds a register pair or the stack pointer to H and L; the sum
    /// modulo 65536 replaces H and L. Condition bits affected: Carry.
    fn dad(&mut self, pair: RegisterPair) -> (result: Result<(), CpuError>)
        ensures
            follows(old(self)@, final(self)@, result, old(self)@.run(Instruction::Dad(pair))),
    {
        if !self.fits(1) {
            return Err(CpuError::OutOfBounds);
        }
        let hl: u16 = self.hl();
        let addend: u16 = self.read_pair(pair);
        let total: u32 = hl as u32 + addend as u32;
        let result: u16 = hl.wrapping_add(addend);
        self.write_pair(RegisterPair::HL, result);
        self.cc.cy = total > 0xFFFF;
        self.advance(1);
        Ok(())
    }

    /// `INR`: increments a register or memory byte by one, modulo 256.
    /// Condition bits affected: Zero, Sign, Parity. Carry is not.
    fn inr(&mut self, target: Operand) -> (result: Result<(), CpuError>)
        ensures
            follows(old(self)@, final(self)@, result, old(self)@.run(Instruction::Inr(target))),
    {
        if !self.fits(1) {
            return Err(CpuError::OutOfBounds);
        }
        let result: u8 = self.read_operand(target).wrapping_add(1);
        self.write_operand(target, result);
        self.update_flags(result);
        self.advance(1);
        Ok(())
    }

    /// `DCR`: decrements a register or memory byte by one, modulo 256.
    /// Condition bits affected: Zero, Sign, Parity. Carry is not.
    fn dcr(&mut self, target: Operand) -> (result: Result<(), CpuError>)
        ensures
            follows(old(self)@, final(self)@, result, old(self)@.run(Instruction::Dcr(target))),
    {
        if !self.fits(1) {
            return Err(CpuError::OutOfBounds);
        }
        let result: u8 = self.read_operand(target).wrapping_sub(1);
        self.write_operand(target, result);
        self.update_flags(result);
        self.advance(1);
        Ok(())
    }

    /// `INX`: increments a register pair or the stack pointer by one,
    /// modulo 65536. Condition bits affected: none.
    fn inx(&mut self, pair: RegisterPair) -> (result: Result<(), CpuError>)
        ensures
            follows(old(self)@, final(self)@, result, old(self)@.run(Instruction::Inx(pair))),
    {
        if !self.fits(1) {
            return Err(CpuError::OutOfBounds);
        }
        let number: u16 = self.read_pair(pair);
        let sum: u16 = number.wrapping_add(1);
        self.write_pair(pair, sum);
        self.advance(1);
        Ok(())
    }

    /// `RLC`: rotates the accumulator one bit to the left. The high-order
    /// bit moves to the low-order position and into Carry.
    /// Condition bits affected: Carry.
    fn rlc(&mut self) -> (result: Result<(), CpuError>)
        ensures
            follows(old(self)@, final(self)@, result, old(self)@.run(Instruction::Rlc)),
    {
        if !self.fits(1) {
            return Err(CpuError::OutOfBounds);
        }
        let a: u8 = self.registers.a;
        let rotated: u8 = (a << 1) | (a >> 7);
        let carry: bool = (a & 0b1000_0000) != 0;
        assert(rotated == rotate_left(a) && carry == bit(a, 7)) by (bit_vector)
            requires
                rotated == (a << 1) | (a >> 7),
                carry == ((a & 0b1000_0000) != 0),
        ;
        self.registers.a = rotated;
        self.cc.cy = carry;
        self.advance(1);
        Ok(())
    }

    /// `RRC`: rotates the accumulator one bit to the right. The low-order
    /// bit moves to the high-order position and into Carry.
    /// Condition bits affected: Carry.
    fn rrc(&mut self) -> (result: Result<(), CpuError>)
        ensures
            follows(old(self)@, final(self)@, result, old(self)@.run(Instruction::Rrc)),
    {
        if !self.fits(1) {
            return Err(CpuError::OutOfBounds);
        }
        let a: u8 = self.registers.a;
        let rotated: u8 = (a >> 1) | (a << 7);
        let carry: bool = (a & 0b0000_0001) != 0;
        assert(rotated == rotate_right(a) && carry == bit(a, 0)) by (bit_vector)
            requires
                rotated == (a >> 1) | (a << 7),
                carry == ((a & 0b0000_0001) != 0),
        ;
        self.registers.a = rotated;
        self.cc.cy = carry;
        self.advance(1);
        Ok(())
    }

    /// `CMA`: complements each bit of the accumulator.
    /// Condition bits affected: none.
    fn cma(&mut self) -> (result: Result<(), CpuError>)
        ensures
            follows(old(self)@, final(self)@, result, old(self)@.run(Instruction::Cma)),
    {
        if !self.fits(1) {
            return Err(CpuError::OutOfBounds);
        }
        self.registers.a = !self.registers.a;
        self.advance(1);
        Ok(())
    }

    /// `STC`: sets Carry. Condition bits affected: Carry.
    fn stc(&mut self) -> (result: Result<(), CpuError>)
        ensures
            follows(old(self)@, final(self)@, result, old(self)@.run(Instruction::Stc)),
    {
        if !self.fits(1) {
            return Err(CpuError::OutOfBounds);
        }
        self.cc.cy = true;
        self.advance(1);
        Ok(())
    }

    /// `CMC`: complements Carry. Condition bits affected: Carry.
    fn cmc(&mut self) -> (result: Result<(), CpuError>)
        ensures
            follows(old(self)@, final(self)@, result, old(self)@.run(Instruction::Cmc)),
    {
        if !self.fits(1) {
            return Err(CpuError::OutOfBounds);
        }
        self.cc.cy = !self.cc.cy;
        self.advance(1);
        Ok(())
    }

    /// `PUSH`: saves a register pair on the stack. The first register goes
    /// to the address one below the stack pointer, the second to the
    /// address two below it, and the stack pointer drops by two. For the
    /// status word the first byte is the accumulator and the second holds
    /// the condition bits. Condition bits affected: none.
    fn push(&mut self, pair: StackPair) -> (result: Result<(), CpuError>)
        ensures
            follows(old(self)@, final(self)@, result, old(self)@.run(Instruction::Push(pair))),
    {
        if !self.fits(1) || self.sp < 2 {
            return Err(CpuError::OutOfBounds);
        }
        match pair {
            StackPair::BC => self.push_bytes(self.registers.b, self.registers.c),
            StackPair::DE => self.push_bytes(self.registers.d, self.registers.e),
            StackPair::HL => self.push_bytes(self.registers.h, self.registers.l),
            StackPair::PSW => {
                let psw: u8 = self.cc.to_byte();
                self.push_bytes(self.registers.a, psw);
            },
        }
        self.advance(1);
        Ok(())
    }

    /// `POP`: restores a register pair from the stack. The byte at the
    /// stack pointer goes to the second register, the byte one above it to
    /// the first, and the stack pointer rises by two. For the status word
    /// the byte at the stack pointer restores the condition bits.
    /// Condition bits affected: all five for the status word, else none.
    fn pop(&mut self, pair: StackPair) -> (result: Result<(), CpuError>)
        ensures
            follows(old(self)@, final(self)@, result, old(self)@.run(Instruction::Pop(pair))),
    {
        if !self.fits(1) || self.sp > TOP - 2 {
            return Err(CpuError::OutOfBounds);
        }
        let low: u8 = self.memory[self.sp as usize];
        let high: u8 = self.memory[(self.sp + 1) as usize];
        match pair {
            StackPair::BC => {
                self.registers.b = high;
                self.registers.c = low;
            },
            StackPair::DE => {
                self.registers.d = high;
                self.registers.e = low;
            },
            StackPair::HL => {
                self.registers.h = high;
                self.registers.l = low;
            },
            StackPair::PSW => {
                self.registers.a = high;
                self.cc = ConditionCodes::from_byte(low);
            },
        }
        self.sp += 2;
        self.advance(1);
        Ok(())
    }

    /// `JMP`: execution continues at the address that follows the opcode.
    /// Condition bits affected: none.
    fn jmp(&mut self) -> (result: Result<(), CpuError>)
        ensures
            follows(old(self)@, final(self)@, result, old(self)@.run(Instruction::Jmp)),
    {
        if !self.fits(2) {
            return Err(CpuError::OutOfBounds);
        }
        let addr: u16 = self.immediate_word();
        self.pc = addr;
        Ok(())
    }

    /// `JNZ`: if Zero is clear, execution continues at the address that
    /// follows the opcode; else with the next instruction.
    /// Condition bits affected: none.
    fn jnz(&mut self) -> (result: Result<(), CpuError>)
        ensures
            follows(old(self)@, final(self)@, result, old(self)@.run(Instruction::Jnz)),
    {
        if !self.fits(2) {
            return Err(CpuError::OutOfBounds);
        }
        let addr: u16 = self.immediate_word();
        if !self.cc.z {
            self.pc = addr;
            Ok(())
        } else {
            self.skip(3)
        }
    }

    /// `CALL`: pushes the address of the next instruction, high byte first,
    /// and continues at the address that follows the opcode.
    /// Condition bits affected: none.
    fn call(&mut self) -> (result: Result<(), CpuError>)
        ensures
            follows(old(self)@, final(self)@, result, old(self)@.run(Instruction::Call)),
    {
        if !self.fits(3) || self.sp < 2 {
            return Err(CpuError::OutOfBounds);
        }
        let addr: u16 = self.immediate_word();
        let ret_addr: u16 = self.pc + 3;
        self.push_bytes(take_high(ret_addr), take_low(ret_addr));
        self.pc = addr;
        Ok(())
    }

    /// `RET`: pops an address, low byte first, and continues there.
    /// Condition bits affected: none.
    fn ret(&mut self) -> (result: Result<(), CpuError>)
        ensures
            follows(old(self)@, final(self)@, result, old(self)@.run(Instruction::Ret)),
    {
        if self.sp > TOP - 2 {
            return Err(CpuError::OutOfBounds);
        }
        let lo_addr: u8 = self.memory[self.sp as usize];
        let hi_addr: u8 = self.memory[(self.sp + 1) as usize];
        self.sp += 2;
        self.pc = make_word(hi_addr, lo_addr);
        Ok(())
    }

    /// `OUT`: no device is attached, so only the port number is stepped
    /// over. Condition bits affected: none.
    fn out(&mut self) -> (result: Result<(), CpuError>)
        ensures
            follows(old(self)@, final(self)@, result, old(self)@.run(Instruction::Out)),
    {
        self.skip(2)
    }

    /// `IN`: no device is attached, so only the port number is stepped
    /// over. Condition bits affected: none.
    fn input(&mut self) -> (result: Result<(), CpuError>)
        ensures
            follows(old(self)@, final(self)@, result, old(self)@.run(Instruction::In)),
    {
        self.skip(2)
    }

    /// `EI`: enables interrupts. Condition bits affected: none.
    fn ei(&mut self) -> (result: Result<(), CpuError>)
        ensures
            follows(old(self)@, final(self)@, result, old(self)@.run(Instruction::Ei)),
    {
        if !self.fits(1) {
            return Err(CpuError::OutOfBounds);
        }
        self.interrupts_enable = true;
        self.advance(1);
        Ok(())
    }

    /// `DI`: disables interrupts. Condition bits affected: none.
    fn di(&mut self) -> (result: Result<(), CpuError>)
        ensures
            follows(old(self)@, final(self)@, result, old(self)@.run(Instruction::Di)),
    {
        if !self.fits(1) {
            return Err(CpuError::OutOfBounds);
        }
        self.interrupts_enable = false;
        self.advance(1);
        Ok(())
    }

    /// Executes the instruction whose opcode is `op`, taking any immediate
    /// data from the bytes after the program counter. A byte that stands for
    /// no instruction is refused with `UnimplementedOpcode`.
    pub fn execute(&mut self, op: u8) -> (result: Result<(), CpuError>)
        ensures
            follows(old(self)@, final(self)@, result, old(self)@.execute(op)),
    {
        match decode_opcode(op) {
            None => Err(CpuError::UnimplementedOpcode(op)),
            Some(Instruction::Nop) => self.skip(1),
            Some(Instruction::Lxi(pair)) => self.lxi(pair),
            Some(Instruction::Mvi(target)) => self.mvi(target),
            Some(Instruction::Mov(target, source)) => self.mov(target, source),
            Some(Instruction::Lda) => self.lda(),
            Some(Instruction::Sta) => self.sta(),
            Some(Instruction::Ldax(pair)) => self.ldax(pair),
            Some(Instruction::Xchg) => self.xchg(),
            Some(Instruction::Add(source)) => self.add(source),
            Some(Instruction::Adi) => self.adi(),
            Some(Instruction::Ani) => self.ani(),
            Some(Instruction::Cpi) => self.cpi(),
            Some(Instruction::Dad(pair)) => self.dad(pair),
            Some(Instruction::Inr(target)) => self.inr(target),
            Some(Instruction::Dcr(target)) => self.dcr(target),
            Some(Instruction::Inx(pair)) => self.inx(pair),
            Some(Instruction::Ana(source)) => self.ana(source),
            Some(Instruction::Xra(source)) => self.xra(source),
            Some(Instruction::Rlc) => self.rlc(),
            Some(Instruction::Rrc) => self.rrc(),
            Some(Instruction::Cma) => self.cma(),
            Some(Instruction::Stc) => self.stc(),
            Some(Instruction::Cmc) => self.cmc(),
            Some(Instruction::Push(pair)) => self.push(pair),
            Some(Instruction::Pop(pair)) => self.pop(pair),
            Some(Instruction::Jmp) => self.jmp(),
            Some(Instruction::Jnz) => self.jnz(),
            Some(Instruction::Call) => self.call(),
            Some(Instruction::Ret) => self.ret(),
            Some(Instruction::Out) => self.out(),
            Some(Instruction::In) => self.input(),
            Some(Instruction::Ei) => self.ei(),
            Some(Instruction::Di) => self.di(),
        }
    }

    /// Executes one instruction: fetches the opcode at the program counter
    /// and executes it.
    pub fn tick(&mut self) -> (result: Result<(), CpuError>)
        ensures
            follows(old(self)@, final(self)@, result, old(self)@.step()),
    {
        // Fetch
        let op: u8 = self.fetch();
        // Decode && Execute
        self.execute(op)
    }
}

} // verus!
