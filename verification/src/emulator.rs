//! The CPU core: the fetch, decode and execute loop over the register file
//! and the memory decoder.

use crate::alu::lemma_byte_ops;
use crate::gpu::FrameEvent;
use crate::machine::{lemma_cb_group, sign_extend, MachineState, Operand};
use crate::mmu::Mmu;
use crate::registers::bit;
use vstd::prelude::*;

pub use crate::exit::VmExit;
pub use crate::registers::{CpuFlag, Registers};

verus! {

/// The machine: the memory decoder with the pixel processing unit in it, and
/// the register file.
pub struct Emulator {
    /// Memory.
    pub memory: Mmu,
    /// All SM83 registers.
    pub regs: Registers,
}

impl View for Emulator {
    type V = MachineState;

    open spec fn view(&self) -> MachineState {
        MachineState { regs: self.regs, memory: self.memory@ }
    }
}

impl Emulator {
    /// Validity of the machine, see [`MachineState::wf`].
    pub open spec fn wf(&self) -> bool {
        self@.wf()
    }

    /// What holds after the instruction whose meaning is `expected` ran from
    /// `pre` to `post` with result `res`: on success the state and the cost
    /// are the expected ones, and on an exit the memory is as it was. The
    /// timing and the hand-off of the pixel processing unit stay in either
    /// case.
    pub open spec fn executed(
        pre: Emulator,
        post: Emulator,
        expected: Result<(MachineState, u8), VmExit>,
        res: Result<u8, VmExit>,
    ) -> bool {
        &&& post.wf()
        &&& post@.memory.gpu.same_timing(pre@.memory.gpu)
        &&& post@.memory.gpu.same_handoff(pre@.memory.gpu)
        &&& match expected {
            Ok((m, cycles)) => res == Ok::<u8, VmExit>(cycles) && post@ == m && 1 <= cycles <= 6,
            Err(e) => res == Err::<u8, VmExit>(e) && post@.memory == pre@.memory,
        }
    }

    /// Whether the machine is valid, see [`MachineState::wf`].
    pub fn valid(&self) -> (b: bool)
        ensures
            b == self.wf(),
    {
        self.regs.valid() && self.memory.valid()
    }

    /// A machine at power-on with the given boot image: all registers zero,
    /// the boot overlay active and an all-zero cartridge.
    pub fn new(bootrom: Vec<u8>) -> (emu: Emulator)
        ensures
            emu@.memory == crate::mmu::MemoryState::initial(bootrom@),
            emu.regs == (Registers { a: 0, b: 0, c: 0, d: 0, e: 0, f: 0, h: 0, l: 0, sp: 0, pc: 0 }),
            emu.wf(),
    {
        Emulator { memory: Mmu::new(bootrom), regs: Registers::new() }
    }

    /// 8-bit increment of `val`, with its flags.
    pub fn alu_inc8(&mut self, val: u8) -> (res: u8)
        ensures
            (final(self).regs, res) == old(self).regs.alu_inc8(val),
            final(self).memory == old(self).memory,
            final(self).regs.wf(),
    {
        let res = val.wrapping_add(1);
        proof {
            lemma_byte_ops(res);
        }
        let half = self.regs.flag(CpuFlag::H) || res & 0b11111 == 0b10000;
        let carry = self.regs.flag(CpuFlag::C);
        self.regs.set_flags(res == 0, false, half, carry);
        res
    }

    /// 8-bit decrement of `val`, with its flags.
    pub fn alu_dec8(&mut self, val: u8) -> (res: u8)
        ensures
            (final(self).regs, res) == old(self).regs.alu_dec8(val),
            final(self).memory == old(self).memory,
            final(self).regs.wf(),
    {
        let res = val.wrapping_sub(1);
        proof {
            lemma_byte_ops(res);
        }
        let half = self.regs.flag(CpuFlag::H) || res & 0b11111 == 0b01111;
        let carry = self.regs.flag(CpuFlag::C);
        self.regs.set_flags(res == 0, true, half, carry);
        res
    }

    /// 16-bit add of `val` into `HL`, with its flags.
    pub fn alu_add_hl(&mut self, val: u16)
        ensures
            final(self).regs == old(self).regs.alu_add_hl(val),
            final(self).memory == old(self).memory,
            final(self).regs.wf(),
    {
        let hl = self.regs.hl();
        let sum = val as u32 + hl as u32;
        let zero = self.regs.flag(CpuFlag::Z);
        self.regs.set_flags(zero, false, sum >= 0x1000, sum >= 0x10000);
        self.regs.set_hl(val.wrapping_add(hl));
    }

    /// Sets the Zero flag iff `A` is 0.
    pub fn alu_set_zero_flag(&mut self)
        ensures
            final(self).regs == old(self).regs.spec_set_flag(CpuFlag::Z, old(self).regs.a == 0),
            final(self).memory == old(self).memory,
            old(self).regs.wf() ==> final(self).regs.wf(),
    {
        let zero = self.regs.a == 0;
        self.regs.set_flag(CpuFlag::Z, zero);
    }

    /// Add of `val` into `A`, with its flags.
    pub fn alu_add(&mut self, val: u8)
        ensures
            final(self).regs == old(self).regs.alu_add(val),
            final(self).memory == old(self).memory,
            final(self).regs.wf(),
    {
        let sum = val as u16 + self.regs.a as u16;
        self.regs.set_flags(false, false, sum >= 0x10, sum >= 0x100);
        self.regs.a = val.wrapping_add(self.regs.a);
        self.alu_set_zero_flag();
    }

    /// Add of `val` and the Carry flag into `A`.
    pub fn alu_adc(&mut self, val: u8)
        ensures
            final(self).regs == old(self).regs.alu_adc(val),
            final(self).memory == old(self).memory,
            final(self).regs.wf(),
    {
        let val = if self.regs.flag(CpuFlag::C) {
            val.wrapping_add(1)
        } else {
            val
        };
        self.alu_add(val);
    }

    /// Subtract of `val` from `A`, with its flags.
    pub fn alu_sub(&mut self, val: u8)
        ensures
            final(self).regs == old(self).regs.alu_sub(val),
            final(self).memory == old(self).memory,
            final(self).regs.wf(),
    {
        let sum = val as u16 + self.regs.a as u16;
        self.regs.set_flags(false, true, sum >= 0x10, val > self.regs.a);
        self.regs.a = self.regs.a.wrapping_sub(val);
        self.alu_set_zero_flag();
    }

    /// Subtract of `val` and the Carry flag from `A`.
    pub fn alu_sbc(&mut self, val: u8)
        ensures
            final(self).regs == old(self).regs.alu_sbc(val),
            final(self).memory == old(self).memory,
            final(self).regs.wf(),
    {
        let val = if self.regs.flag(CpuFlag::C) {
            val.wrapping_add(1)
        } else {
            val
        };
        self.alu_sub(val);
    }

    /// Bitwise and of `val` into `A`, with its flags.
    pub fn alu_and(&mut self, val: u8)
        ensures
            final(self).regs == old(self).regs.alu_and(val),
            final(self).memory == old(self).memory,
            final(self).regs.wf(),
    {
        self.regs.set_flags(false, false, true, false);
        self.regs.a = self.regs.a & val;
        self.alu_set_zero_flag();
    }

    /// Bitwise exclusive or of `val` into `A`, with its flags.
    pub fn alu_xor(&mut self, val: u8)
        ensures
            final(self).regs == old(self).regs.alu_xor(val),
            final(self).memory == old(self).memory,
            final(self).regs.wf(),
    {
        self.regs.set_flags(false, false, false, false);
        self.regs.a = self.regs.a ^ val;
        self.alu_set_zero_flag();
    }

    /// Bitwise or of `val` into `A`, with its flags.
    pub fn alu_or(&mut self, val: u8)
        ensures
            final(self).regs == old(self).regs.alu_or(val),
            final(self).memory == old(self).memory,
            final(self).regs.wf(),
    {
        self.regs.set_flags(false, false, false, false);
        self.regs.a = self.regs.a | val;
        self.alu_set_zero_flag();
    }

    /// Compare of `val` with `A`: the flags of a subtract, `A` unchanged.
    pub fn alu_cp(&mut self, val: u8)
        ensures
            final(self).regs == old(self).regs.alu_cp(val),
            final(self).memory == old(self).memory,
            final(self).regs.wf(),
    {
        let sum = val as u16 + self.regs.a as u16;
        let res = self.regs.a.wrapping_sub(val);
        self.regs.set_flags(res == 0, true, sum >= 0x10, val > self.regs.a);
    }

    /// The operation on `A` that the opcode field `op` names.
    fn alu(&mut self, op: u8, val: u8)
        ensures
            final(self).regs == old(self).regs.alu(op, val),
            final(self).memory == old(self).memory,
            final(self).regs.wf(),
    {
        if op == 0 {
            self.alu_add(val)
        } else if op == 1 {
            self.alu_adc(val)
        } else if op == 2 {
            self.alu_sub(val)
        } else if op == 3 {
            self.alu_sbc(val)
        } else if op == 4 {
            self.alu_and(val)
        } else if op == 5 {
            self.alu_xor(val)
        } else if op == 6 {
            self.alu_or(val)
        } else {
            self.alu_cp(val)
        }
    }

    /// Rotates the operand left through carry, in place.
    ///
    /// Where the operand cannot be read or written the result is the exit
    /// and nothing changes.
    pub fn alu_rl(&mut self, loc: Operand) -> (res: Result<(), VmExit>)
        requires
            old(self).wf(),
        ensures
            final(self).wf(),
            match old(self)@.alu_rl(loc) {
                Ok(m) => res is Ok && final(self)@ == m,
                Err(e) => res == Err::<(), VmExit>(e) && final(self)@ == old(self)@,
            },
            final(self)@.memory.gpu.same_timing(old(self)@.memory.gpu),
            final(self)@.memory.gpu.same_handoff(old(self)@.memory.gpu),
    {
        let val = self.load(loc)?;
        let old_carry: u8 = if self.regs.flag(CpuFlag::C) {
            1
        } else {
            0
        };
        proof {
            lemma_byte_ops(val);
        }
        let carry = (val & 0x80) == 0x80;
        let rotated = (val << 1) | old_carry;
        self.store(loc, rotated)?;
        self.regs.set_flags(rotated == 0, false, false, carry);
        Ok(())
    }

    /// Swaps the two nibbles of the operand, in place.
    ///
    /// Where the operand cannot be read or written the result is the exit
    /// and nothing changes.
    pub fn alu_swap(&mut self, loc: Operand) -> (res: Result<(), VmExit>)
        requires
            old(self).wf(),
        ensures
            final(self).wf(),
            match old(self)@.alu_swap(loc) {
                Ok(m) => res is Ok && final(self)@ == m,
                Err(e) => res == Err::<(), VmExit>(e) && final(self)@ == old(self)@,
            },
            final(self)@.memory.gpu.same_timing(old(self)@.memory.gpu),
            final(self)@.memory.gpu.same_handoff(old(self)@.memory.gpu),
    {
        let val = self.load(loc)?;
        proof {
            lemma_byte_ops(val);
        }
        let swapped = (val >> 4) | ((val & 0x0f) << 4);
        self.store(loc, swapped)?;
        self.regs.set_flags(swapped == 0, false, false, false);
        Ok(())
    }

    /// Shifts the operand right by one, in place.
    ///
    /// Where the operand cannot be read or written the result is the exit
    /// and nothing changes.
    pub fn alu_srl(&mut self, loc: Operand) -> (res: Result<(), VmExit>)
        requires
            old(self).wf(),
        ensures
            final(self).wf(),
            match old(self)@.alu_srl(loc) {
                Ok(m) => res is Ok && final(self)@ == m,
                Err(e) => res == Err::<(), VmExit>(e) && final(self)@ == old(self)@,
            },
            final(self)@.memory.gpu.same_timing(old(self)@.memory.gpu),
            final(self)@.memory.gpu.same_handoff(old(self)@.memory.gpu),
    {
        let val = self.load(loc)?;
        proof {
            lemma_byte_ops(val);
        }
        let carry = (val & 0x01) == 0x01;
        let shifted = val >> 1;
        self.store(loc, shifted)?;
        self.regs.set_flags(shifted == 0, false, false, carry);
        Ok(())
    }

    /// Pops a word off the stack: reads it at `SP`, then moves `SP` up by 2.
    ///
    /// Where the word cannot be read, or `SP` is above 0xFFFD, the result is
    /// `OobRead` and nothing changes.
    pub fn pop16(&mut self) -> (res: Result<u16, VmExit>)
        requires
            old(self).wf(),
        ensures
            final(self).wf(),
            match old(self)@.pop16() {
                Ok((m, val)) => res == Ok::<u16, VmExit>(val) && final(self)@ == m,
                Err(e) => res == Err::<u16, VmExit>(e) && final(self)@ == old(self)@,
            },
            final(self).memory == old(self).memory,
    {
        if self.regs.sp > 0xFFFD {
            return Err(VmExit::OobRead);
        }
        let val = self.memory.read_word(self.regs.sp)?;
        self.regs.sp = self.regs.sp + 2;
        Ok(val)
    }

    /// Pushes `val` on the stack: moves `SP` down by 2, then writes the word
    /// at `SP`.
    ///
    /// Where the word cannot be written, or `SP` is below 2, the result is
    /// `OobRead` and nothing changes.
    pub fn push16(&mut self, val: u16) -> (res: Result<(), VmExit>)
        requires
            old(self).wf(),
        ensures
            final(self).wf(),
            match old(self)@.push16(val) {
                Ok(m) => res is Ok && final(self)@ == m,
                Err(e) => res == Err::<(), VmExit>(e) && final(self)@ == old(self)@,
            },
            final(self)@.memory.gpu.same_timing(old(self)@.memory.gpu),
            final(self)@.memory.gpu.same_handoff(old(self)@.memory.gpu),
    {
        if self.regs.sp < 2 {
            return Err(VmExit::OobRead);
        }
        self.memory.write_word(self.regs.sp - 2, val)?;
        self.regs.sp = self.regs.sp - 2;
        Ok(())
    }

    /// Tests bit `n` of `val`: sets the Zero flag iff the bit is 0 and
    /// leaves the other flags as they are.
    pub fn bit(&mut self, val: u8, n: u8)
        requires
            n < 8,
        ensures
            final(self).regs == old(self).regs.alu_bit(val, n),
            final(self).memory == old(self).memory,
            old(self).regs.wf() ==> final(self).regs.wf(),
    {
        let set = bit(val, n);
        self.regs.set_flag(CpuFlag::Z, !set);
    }

    /// The value of an operand.
    pub fn load(&self, loc: Operand) -> (res: Result<u8, VmExit>)
        requires
            self.wf(),
        ensures
            res == self@.load(loc),
    {
        match loc {
            Operand::B => Ok(self.regs.b),
            Operand::C => Ok(self.regs.c),
            Operand::D => Ok(self.regs.d),
            Operand::E => Ok(self.regs.e),
            Operand::H => Ok(self.regs.h),
            Operand::L => Ok(self.regs.l),
            Operand::HlIndirect => self.memory.read_byte(self.regs.hl()),
            Operand::A => Ok(self.regs.a),
        }
    }

    /// Stores `val` in an operand.
    ///
    /// Where memory refuses the write the result is the exit and nothing
    /// changes.
    pub fn store(&mut self, loc: Operand, val: u8) -> (res: Result<(), VmExit>)
        requires
            old(self).wf(),
        ensures
            final(self).wf(),
            match old(self)@.store(loc, val) {
                Ok(m) => res is Ok && final(self)@ == m,
                Err(e) => res == Err::<(), VmExit>(e) && final(self)@ == old(self)@,
            },
            final(self)@.memory.gpu.same_timing(old(self)@.memory.gpu),
            final(self)@.memory.gpu.same_handoff(old(self)@.memory.gpu),
    {
        match loc {
            Operand::B => {
                self.regs.b = val;
                Ok(())
            },
            Operand::C => {
                self.regs.c = val;
                Ok(())
            },
            Operand::D => {
                self.regs.d = val;
                Ok(())
            },
            Operand::E => {
                self.regs.e = val;
                Ok(())
            },
            Operand::H => {
                self.regs.h = val;
                Ok(())
            },
            Operand::L => {
                self.regs.l = val;
                Ok(())
            },
            Operand::HlIndirect => self.memory.write_byte(self.regs.hl(), val),
            Operand::A => {
                self.regs.a = val;
                Ok(())
            },
        }
    }

    /// The byte that follows the opcode.
    fn imm8(&self) -> (res: Result<u8, VmExit>)
        requires
            self.wf(),
        ensures
            res == self@.imm8(),
    {
        if self.regs.pc == 0xFFFF {
            Err(VmExit::OobRead)
        } else {
            self.memory.read_byte(self.regs.pc + 1)
        }
    }

    /// The little-endian word that follows the opcode.
    fn imm16(&self) -> (res: Result<u16, VmExit>)
        requires
            self.wf(),
        ensures
            res == self@.imm16(),
    {
        if self.regs.pc == 0xFFFF {
            Err(VmExit::OobRead)
        } else {
            self.memory.read_word(self.regs.pc + 1)
        }
    }

    /// The address just past an instruction of `len` bytes at `PC`.
    fn next_pc(&self, len: u16) -> (res: Result<u16, VmExit>)
        requires
            len <= 3,
        ensures
            res == (if self.regs.pc + len > 0xFFFF {
                Err::<u16, VmExit>(VmExit::OobRead)
            } else {
                Ok::<u16, VmExit>((self.regs.pc + len) as u16)
            }),
    {
        if self.regs.pc > 0xFFFF - len {
            Err(VmExit::OobRead)
        } else {
            Ok(self.regs.pc + len)
        }
    }

    /// Ends an instruction of `len` bytes that did not set `PC`.
    fn finish(&mut self, len: u16, cycles: u8) -> (res: Result<u8, VmExit>)
        requires
            old(self).wf(),
            1 <= len <= 3,
            1 <= cycles <= 6,
        ensures
            Self::executed(*old(self), *final(self), old(self)@.done(len, cycles), res),
            res is Err ==> final(self)@ == old(self)@,
    {
        let next = self.next_pc(len)?;
        self.regs.pc = next;
        Ok(cycles)
    }

    /// The 16-bit register that field `p` names.
    fn pair(&self, p: u8) -> (val: u16)
        ensures
            val == self@.pair(p),
    {
        if p == 0 {
            self.regs.bc()
        } else if p == 1 {
            self.regs.de()
        } else if p == 2 {
            self.regs.hl()
        } else {
            self.regs.sp
        }
    }

    /// Sets the 16-bit register that field `p` names.
    fn set_pair(&mut self, p: u8, val: u16)
        ensures
            final(self)@ == old(self)@.set_pair(p, val),
            final(self).memory == old(self).memory,
            final(self).regs.f == old(self).regs.f,
            final(self).regs.pc == old(self).regs.pc,
    {
        if p == 0 {
            self.regs.set_bc(val);
        } else if p == 1 {
            self.regs.set_de(val);
        } else if p == 2 {
            self.regs.set_hl(val);
        } else {
            self.regs.sp = val;
        }
    }

    /// The 16-bit register that field `p` of a push names.
    fn stack_pair(&self, p: u8) -> (val: u16)
        ensures
            val == self@.stack_pair(p),
    {
        if p == 0 {
            self.regs.bc()
        } else if p == 1 {
            self.regs.de()
        } else if p == 2 {
            self.regs.hl()
        } else {
            self.regs.af()
        }
    }

    /// Sets the 16-bit register that field `p` of a pop names.
    fn set_stack_pair(&mut self, p: u8, val: u16)
        requires
            old(self).regs.wf(),
        ensures
            final(self)@ == old(self)@.set_stack_pair(p, val),
            final(self).memory == old(self).memory,
            final(self).regs.wf(),
            final(self).regs.pc == old(self).regs.pc,
    {
        if p == 0 {
            self.regs.set_bc(val);
        } else if p == 1 {
            self.regs.set_de(val);
        } else if p == 2 {
            self.regs.set_hl(val);
        } else {
            self.regs.set_af(val);
        }
    }

    /// The branch condition that field `c` names.
    fn condition(&self, c: u8) -> (taken: bool)
        ensures
            taken == self@.condition(c),
    {
        if c == 0 {
            !self.regs.flag(CpuFlag::Z)
        } else if c == 1 {
            self.regs.flag(CpuFlag::Z)
        } else if c == 2 {
            !self.regs.flag(CpuFlag::C)
        } else {
            self.regs.flag(CpuFlag::C)
        }
    }

    /// A relative jump.
    fn jr(&mut self) -> (res: Result<u8, VmExit>)
        requires
            old(self).wf(),
        ensures
            Self::executed(*old(self), *final(self), old(self)@.jr(), res),
    {
        let offset = self.imm8()?;
        self.regs.pc = self.regs.pc.wrapping_add(sign_extend(offset)).wrapping_add(2);
        Ok(3)
    }

    /// A call to the address that follows the opcode.
    fn call(&mut self) -> (res: Result<u8, VmExit>)
        requires
            old(self).wf(),
        ensures
            Self::executed(*old(self), *final(self), old(self)@.call(), res),
    {
        let target = self.imm16()?;
        if self.regs.pc > 0xFFFC {
            return Err(VmExit::OobRead);
        }
        self.push16(self.regs.pc + 3)?;
        self.regs.pc = target;
        Ok(6)
    }

    /// A return to the address on top of the stack.
    fn ret(&mut self, cycles: u8) -> (res: Result<u8, VmExit>)
        requires
            old(self).wf(),
            1 <= cycles <= 6,
        ensures
            Self::executed(*old(self), *final(self), old(self)@.ret(cycles), res),
    {
        let target = self.pop16()?;
        self.regs.pc = target;
        Ok(cycles)
    }

    /// Opcodes 0x00 to 0x3F with `z = 0`.
    fn exec_misc(&mut self, y: u8) -> (res: Result<u8, VmExit>)
        requires
            old(self).wf(),
            y < 8,
        ensures
            Self::executed(*old(self), *final(self), old(self)@.exec_misc(y), res),
    {
        proof {
            reveal(MachineState::exec_misc);
        }
        if y == 0 {
            self.finish(1, 1)
        } else if y == 1 {
            let val = self.imm16()?;
            self.regs.sp = val;
            self.finish(3, 5)
        } else if y == 2 {
            Err(VmExit::Stop)
        } else if y == 3 || self.condition(y - 4) {
            self.jr()
        } else {
            self.finish(2, 2)
        }
    }

    /// Opcodes 0x00 to 0x3F with `z = 2`.
    fn exec_indirect(&mut self, y: u8) -> (res: Result<u8, VmExit>)
        requires
            old(self).wf(),
            y < 8,
        ensures
            Self::executed(*old(self), *final(self), old(self)@.exec_indirect(y), res),
    {
        proof {
            reveal(MachineState::exec_indirect);
        }
        let hl = self.regs.hl();
        let address = if y < 2 {
            self.regs.bc()
        } else if y < 4 {
            self.regs.de()
        } else {
            hl
        };
        if y % 2 == 0 {
            let next = self.next_pc(1)?;
            self.memory.write_byte(address, self.regs.a)?;
            self.regs.pc = next;
        } else {
            let val = self.memory.read_byte(address)?;
            let next = self.next_pc(1)?;
            self.regs.a = val;
            self.regs.pc = next;
        }
        if 4 <= y && y < 6 {
            self.regs.set_hl(hl.wrapping_add(1));
        } else if 6 <= y {
            self.regs.set_hl(hl.wrapping_sub(1));
        }
        Ok(2)
    }

    /// Opcodes 0x00 to 0x3F with `z = 4` or `z = 5`.
    fn exec_inc_dec(&mut self, y: u8, z: u8) -> (res: Result<u8, VmExit>)
        requires
            old(self).wf(),
            y < 8,
            z == 4 || z == 5,
        ensures
            Self::executed(*old(self), *final(self), old(self)@.exec_inc_dec(y, z), res),
    {
        proof {
            reveal(MachineState::exec_inc_dec);
        }
        let loc = Operand::from_index(y);
        let val = self.load(loc)?;
        let next = self.next_pc(1)?;
        let res = if z == 4 {
            self.alu_inc8(val)
        } else {
            self.alu_dec8(val)
        };
        self.store(loc, res)?;
        self.regs.pc = next;
        Ok(if y == 6 { 3 } else { 1 })
    }

    /// Opcodes 0x00 to 0x3F with `z = 7`.
    fn exec_accumulator(&mut self, y: u8) -> (res: Result<u8, VmExit>)
        requires
            old(self).wf(),
            y < 8,
        ensures
            Self::executed(*old(self), *final(self), old(self)@.exec_accumulator(y), res),
    {
        proof {
            reveal(MachineState::exec_accumulator);
        }
        let a = self.regs.a;
        let zero = self.regs.flag(CpuFlag::Z);
        let carry = self.regs.flag(CpuFlag::C);
        proof {
            lemma_byte_ops(a);
        }
        if y == 0 {
            let out = (a & 0x80) == 0x80;
            self.regs.a = (a << 1) | (if out { 1 } else { 0 });
            self.regs.set_flags(false, false, false, out);
        } else if y == 1 {
            let out = (a & 0x01) == 0x01;
            self.regs.a = (a >> 1) | (if out { 0x80 } else { 0 });
            self.regs.set_flags(false, false, false, out);
        } else if y == 2 {
            let out = (a & 0x80) == 0x80;
            self.regs.a = (a << 1) | (if carry { 1 } else { 0 });
            self.regs.set_flags(false, false, false, out);
        } else if y == 3 {
            let out = (a & 0x01) == 0x01;
            self.regs.a = a >> 1;
            self.regs.set_flags(false, false, false, out);
        } else if y == 4 {
            return Err(VmExit::Unimplemented);
        } else if y == 5 {
            self.regs.a = !a;
            self.regs.set_flags(zero, true, true, carry);
        } else if y == 6 {
            self.regs.set_flags(zero, false, false, true);
        } else {
            self.regs.set_flags(zero, false, false, !carry);
        }
        self.finish(1, 1)
    }

    /// Opcodes 0x00 to 0x3F.
    fn exec_q0(&mut self, op: u8) -> (res: Result<u8, VmExit>)
        requires
            old(self).wf(),
            op < 0x40,
        ensures
            Self::executed(*old(self), *final(self), old(self)@.exec_q0(op), res),
    {
        proof {
            reveal(MachineState::exec_q0);
        }
        let y = op / 8;
        let z = op % 8;
        if z == 0 {
            self.exec_misc(y)
        } else if z == 1 {
            if y % 2 == 0 {
                let val = self.imm16()?;
                self.set_pair(y / 2, val);
                self.finish(3, 3)
            } else {
                let val = self.pair(y / 2);
                self.alu_add_hl(val);
                self.finish(1, 2)
            }
        } else if z == 2 {
            self.exec_indirect(y)
        } else if z == 3 {
            let val = self.pair(y / 2);
            self.set_pair(
                y / 2,
                if y % 2 == 0 {
                    val.wrapping_add(1)
                } else {
                    val.wrapping_sub(1)
                },
            );
            self.finish(1, 2)
        } else if z == 4 || z == 5 {
            self.exec_inc_dec(y, z)
        } else if z == 6 {
            let val = self.imm8()?;
            let next = self.next_pc(2)?;
            self.store(Operand::from_index(y), val)?;
            self.regs.pc = next;
            Ok(if y == 6 { 3 } else { 2 })
        } else {
            self.exec_accumulator(y)
        }
    }

    /// Opcodes 0x40 to 0x7F.
    fn exec_ld(&mut self, op: u8) -> (res: Result<u8, VmExit>)
        requires
            old(self).wf(),
            0x40 <= op < 0x80,
        ensures
            Self::executed(*old(self), *final(self), old(self)@.exec_ld(op), res),
    {
        proof {
            reveal(MachineState::exec_ld);
        }
        let y = (op / 8) % 8;
        let z = op % 8;
        if y == 6 && z == 6 {
            return Err(VmExit::Halt);
        }
        let val = self.load(Operand::from_index(z))?;
        let next = self.next_pc(1)?;
        self.store(Operand::from_index(y), val)?;
        self.regs.pc = next;
        Ok(if y == 6 || z == 6 { 2 } else { 1 })
    }

    /// Opcodes 0x80 to 0xBF.
    fn exec_alu(&mut self, op: u8) -> (res: Result<u8, VmExit>)
        requires
            old(self).wf(),
            0x80 <= op < 0xC0,
        ensures
            Self::executed(*old(self), *final(self), old(self)@.exec_alu(op), res),
    {
        proof {
            reveal(MachineState::exec_alu);
        }
        let y = (op / 8) % 8;
        let z = op % 8;
        let val = self.load(Operand::from_index(z))?;
        self.alu(y, val);
        self.finish(1, if z == 6 { 2 } else { 1 })
    }

    /// Sets the flags of an add of the unsigned offset `val` to `SP`.
    fn alu_offset_flags(&mut self, val: u8)
        ensures
            final(self).regs == old(self).regs.alu_offset_flags(val),
            final(self).memory == old(self).memory,
            final(self).regs.wf(),
    {
        let sum = val as u32 + self.regs.sp as u32;
        self.regs.set_flags(false, false, sum >= 0x10, sum >= 0x100);
    }

    /// Opcodes 0xC0 to 0xFF with `z = 0`.
    fn exec_q3_z0(&mut self, y: u8) -> (res: Result<u8, VmExit>)
        requires
            old(self).wf(),
            y < 8,
        ensures
            Self::executed(*old(self), *final(self), old(self)@.exec_q3_z0(y), res),
    {
        proof {
            reveal(MachineState::exec_q3_z0);
        }
        if y < 4 {
            if self.condition(y) {
                self.ret(5)
            } else {
                self.finish(1, 2)
            }
        } else {
            let val = self.imm8()?;
            if y == 4 {
                let next = self.next_pc(2)?;
                self.memory.write_byte(0xFF00 + val as u16, self.regs.a)?;
                self.regs.pc = next;
                Ok(3)
            } else if y == 5 {
                let sp = self.regs.sp;
                self.alu_offset_flags(val);
                self.regs.sp = sp.wrapping_add(val as u16);
                self.finish(2, 4)
            } else if y == 6 {
                let byte = self.memory.read_byte(0xFF00 + val as u16)?;
                self.regs.a = byte;
                self.finish(2, 3)
            } else {
                let sp = self.regs.sp;
                self.alu_offset_flags(val);
                self.regs.set_hl(sp.wrapping_add(val as u16));
                self.finish(2, 3)
            }
        }
    }

    /// Opcodes 0xC0 to 0xFF with `z = 1`.
    fn exec_q3_z1(&mut self, y: u8) -> (res: Result<u8, VmExit>)
        requires
            old(self).wf(),
            y < 8,
        ensures
            Self::executed(*old(self), *final(self), old(self)@.exec_q3_z1(y), res),
    {
        proof {
            reveal(MachineState::exec_q3_z1);
        }
        if y % 2 == 0 {
            let next = self.next_pc(1)?;
            let val = self.pop16()?;
            self.set_stack_pair(y / 2, val);
            self.regs.pc = next;
            Ok(3)
        } else if y == 1 || y == 3 {
            self.ret(4)
        } else if y == 5 {
            let target = self.memory.read_word(self.regs.hl())?;
            self.regs.pc = target;
            Ok(1)
        } else {
            self.regs.sp = self.regs.hl();
            self.finish(1, 2)
        }
    }

    /// Opcodes 0xC0 to 0xFF with `z = 2`.
    fn exec_q3_z2(&mut self, y: u8) -> (res: Result<u8, VmExit>)
        requires
            old(self).wf(),
            y < 8,
        ensures
            Self::executed(*old(self), *final(self), old(self)@.exec_q3_z2(y), res),
    {
        proof {
            reveal(MachineState::exec_q3_z2);
        }
        if y < 4 {
            if self.condition(y) {
                let target = self.imm16()?;
                self.regs.pc = target;
                Ok(4)
            } else {
                self.finish(3, 3)
            }
        } else if y == 4 {
            let next = self.next_pc(1)?;
            self.memory.write_byte(0xFF00 + self.regs.c as u16, self.regs.a)?;
            self.regs.pc = next;
            Ok(2)
        } else if y == 6 {
            let byte = self.memory.read_byte(0xFF00 + self.regs.c as u16)?;
            self.regs.a = byte;
            self.finish(1, 2)
        } else {
            let address = self.imm16()?;
            if y == 5 {
                let next = self.next_pc(3)?;
                self.memory.write_byte(address, self.regs.a)?;
                self.regs.pc = next;
                Ok(4)
            } else {
                let byte = self.memory.read_byte(address)?;
                self.regs.a = byte;
                self.finish(3, 4)
            }
        }
    }

    /// The operation that group `group` of the two-byte opcodes names,
    /// applied to an operand.
    fn exec_cb_group(&mut self, group: u8, loc: Operand) -> (res: Result<(), VmExit>)
        requires
            old(self).wf(),
        ensures
            final(self).wf(),
            match old(self)@.exec_cb_group(group, loc) {
                Ok(m) => res is Ok && final(self)@ == m,
                Err(e) => res == Err::<(), VmExit>(e) && final(self)@ == old(self)@,
            },
            final(self)@.memory.gpu.same_timing(old(self)@.memory.gpu),
            final(self)@.memory.gpu.same_handoff(old(self)@.memory.gpu),
    {
        proof {
            reveal(MachineState::exec_cb_group);
        }
        if group == 2 {
            self.alu_rl(loc)
        } else if group == 6 {
            self.alu_swap(loc)
        } else if group == 7 {
            self.alu_srl(loc)
        } else if group == 15 {
            let val = self.load(loc)?;
            self.bit(val, 7);
            Ok(())
        } else {
            Err(VmExit::Unimplemented)
        }
    }

    /// The two-byte opcodes behind the prefix 0xCB.
    fn exec_cb(&mut self) -> (res: Result<u8, VmExit>)
        requires
            old(self).wf(),
        ensures
            Self::executed(*old(self), *final(self), old(self)@.exec_cb(), res),
    {
        proof {
            reveal(MachineState::exec_cb);
        }
        let sub = self.imm8()?;
        let group = sub / 8;
        let loc = Operand::from_index(sub);
        proof {
            lemma_cb_group(self@, group, loc);
        }
        if group != 2 && group != 6 && group != 7 && group != 15 {
            return Err(VmExit::Unimplemented);
        }
        let next = self.next_pc(2)?;
        self.exec_cb_group(group, loc)?;
        self.regs.pc = next;
        Ok(if sub % 8 == 6 { 4 } else { 2 })
    }

    /// Opcodes 0xC0 to 0xFF.
    fn exec_q3(&mut self, op: u8) -> (res: Result<u8, VmExit>)
        requires
            old(self).wf(),
            0xC0 <= op,
        ensures
            Self::executed(*old(self), *final(self), old(self)@.exec_q3(op), res),
    {
        proof {
            reveal(MachineState::exec_q3);
        }
        let y = (op / 8) % 8;
        let z = op % 8;
        if z == 0 {
            self.exec_q3_z0(y)
        } else if z == 1 {
            self.exec_q3_z1(y)
        } else if z == 2 {
            self.exec_q3_z2(y)
        } else if z == 3 {
            if y == 0 {
                let target = self.imm16()?;
                self.regs.pc = target;
                Ok(4)
            } else if y == 1 {
                self.exec_cb()
            } else if y == 6 || y == 7 {
                self.finish(1, 1)
            } else {
                Err(VmExit::Unimplemented)
            }
        } else if z == 4 {
            if y >= 4 {
                Err(VmExit::Unimplemented)
            } else if self.condition(y) {
                self.call()
            } else {
                self.finish(3, 3)
            }
        } else if z == 5 {
            if y % 2 == 0 {
                let next = self.next_pc(1)?;
                self.push16(self.stack_pair(y / 2))?;
                self.regs.pc = next;
                Ok(4)
            } else if y == 1 {
                self.call()
            } else {
                Err(VmExit::Unimplemented)
            }
        } else if z == 6 {
            let val = self.imm8()?;
            self.alu(y, val);
            self.finish(2, 2)
        } else {
            if self.regs.pc == 0xFFFF {
                return Err(VmExit::OobRead);
            }
            self.push16(self.regs.pc + 1)?;
            self.regs.pc = (y * 8) as u16;
            Ok(4)
        }
    }

    /// Executes the instruction with opcode `op` at `PC` and returns its
    /// cost in machine cycles.
    ///
    /// On success the registers, `PC` included, and the memory are those
    /// that [`MachineState::execute`] gives. On an exit nothing changes.
    pub fn execute(&mut self, op: u8) -> (res: Result<u8, VmExit>)
        requires
            old(self).wf(),
        ensures
            final(self).wf(),
            match old(self)@.execute(op) {
                Ok((m, cycles)) => res == Ok::<u8, VmExit>(cycles) && final(self)@ == m && 1
                    <= cycles <= 6,
                Err(e) => res == Err::<u8, VmExit>(e) && final(self)@ == old(self)@,
            },
            final(self)@.memory.gpu.same_timing(old(self)@.memory.gpu),
            final(self)@.memory.gpu.same_handoff(old(self)@.memory.gpu),
    {
        proof {
            reveal(MachineState::execute);
        }
        let saved = self.regs;
        let res = if op < 0x40 {
            self.exec_q0(op)
        } else if op < 0x80 {
            self.exec_ld(op)
        } else if op < 0xC0 {
            self.exec_alu(op)
        } else {
            self.exec_q3(op)
        };
        if res.is_err() {
            self.regs = saved;
        }
        res
    }

    /// Runs one instruction and advances the pixel processing unit by its
    /// cost, four clock ticks per machine cycle.
    ///
    /// While the pixel processing unit is blocked nothing happens and the
    /// result is `Ok(Blocked)`. Otherwise the result tells what the pixel
    /// processing unit did about frame hand-off, or why the machine stops;
    /// in the latter case nothing has changed.
    pub fn step(&mut self) -> (res: Result<FrameEvent, VmExit>)
        requires
            old(self).wf(),
        ensures
            final(self).wf(),
            final(self)@ == old(self)@.step().0,
            res == old(self)@.step().1,
            res == Ok::<FrameEvent, VmExit>(FrameEvent::Running)
                ==> final(self)@.memory.gpu.ticks_left() < old(self)@.memory.gpu.ticks_left(),
    {
        if self.memory.gpu.blocked() {
            return Ok(FrameEvent::Blocked);
        }
        let op = self.memory.read_byte(self.regs.pc)?;
        let cycles = self.execute(op)?;
        let event = self.memory.gpu.step(cycles as usize * 4);
        Ok(event)
    }

    /// Runs the machine until it stops or the pixel processing unit
    /// completes a frame.
    ///
    /// The result is the exit reason, or `Ok` where a frame was completed
    /// (published, dropped, or held back for the consumer): the caller then
    /// takes the frame, if there is one, and calls again. A machine that is
    /// blocked returns at once.
    pub fn run(&mut self) -> (res: Result<(), VmExit>)
        requires
            old(self).wf(),
        ensures
            final(self).wf(),
            exists|n: nat| old(self)@.runs_to(n, final(self)@, res),
    {
        let ghost start = self@;
        let ghost mut n: nat = 0;
        loop
            invariant
                self.wf(),
                start == old(self)@,
                self@ == start.steps(n),
                forall|k: nat| k < n ==> #[trigger] start.steps(k).quiet(),
            decreases self@.memory.gpu.ticks_left(),
        {
            match self.step() {
                Ok(FrameEvent::Running) => {
                    proof {
                        n = n + 1;
                    }
                },
                Ok(_) => {
                    assert(start.runs_to(n, self@, Ok::<(), VmExit>(())));
                    return Ok(());
                },
                Err(e) => {
                    assert(start.runs_to(n, self@, Err::<(), VmExit>(e)));
                    return Err(e);
                },
            }
        }
    }
}

} // verus!
