//! The mathematical model of the whole machine, and what one instruction and
//! one run do to it.
//!
//! An opcode is read by its fields: `x = op / 64`, `y = (op / 8) % 8` and
//! `z = op % 8`. An instruction either completes, giving the next state and
//! its cost in machine cycles, or ends with a [`VmExit`]. Whether it fails
//! depends on the state before it alone.

use crate::exit::VmExit;
use crate::gpu::{FrameEvent, GpuState};
use crate::mmu::MemoryState;
use crate::registers::{CpuFlag, Registers};
use vstd::prelude::*;

verus! {

/// Where an 8-bit operand lives: in a register, or in memory at the address
/// held by `HL`.
#[derive(Clone, Copy, Debug, PartialEq, Eq, Structural)]
pub enum Operand {
    B,
    C,
    D,
    E,
    H,
    L,
    HlIndirect,
    A,
}

impl Operand {
    /// The operand that a 3-bit opcode field names: 0 to 5 are `B`, `C`,
    /// `D`, `E`, `H`, `L`; 6 is memory at `HL`; 7 is `A`.
    pub open spec fn spec_from_index(i: u8) -> Operand {
        if i % 8 == 0 {
            Operand::B
        } else if i % 8 == 1 {
            Operand::C
        } else if i % 8 == 2 {
            Operand::D
        } else if i % 8 == 3 {
            Operand::E
        } else if i % 8 == 4 {
            Operand::H
        } else if i % 8 == 5 {
            Operand::L
        } else if i % 8 == 6 {
            Operand::HlIndirect
        } else {
            Operand::A
        }
    }

    /// The operand that a 3-bit opcode field names.
    #[verifier::when_used_as_spec(spec_from_index)]
    pub fn from_index(i: u8) -> (loc: Operand)
        ensures
            loc == Operand::spec_from_index(i),
    {
        let k = i % 8;
        if k == 0 {
            Operand::B
        } else if k == 1 {
            Operand::C
        } else if k == 2 {
            Operand::D
        } else if k == 3 {
            Operand::E
        } else if k == 4 {
            Operand::H
        } else if k == 5 {
            Operand::L
        } else if k == 6 {
            Operand::HlIndirect
        } else {
            Operand::A
        }
    }
}

/// The offset byte of a relative jump as a 16-bit two's complement value.
pub open spec fn spec_sign_extend(offset: u8) -> u16 {
    if offset < 128 {
        offset as u16
    } else {
        (0xFF00 + offset) as u16
    }
}

/// The offset byte of a relative jump as a 16-bit two's complement value.
#[verifier::when_used_as_spec(spec_sign_extend)]
pub fn sign_extend(offset: u8) -> (r: u16)
    ensures
        r == spec_sign_extend(offset),
{
    if offset < 128 {
        offset as u16
    } else {
        0xFF00 + offset as u16
    }
}

/// State of the machine: the register file and the address space.
pub struct MachineState {
    pub regs: Registers,
    pub memory: MemoryState,
}

impl MachineState {
    /// Validity of the state.
    pub open spec fn wf(self) -> bool {
        self.regs.wf() && self.memory.wf()
    }

    pub open spec fn with_regs(self, regs: Registers) -> MachineState {
        MachineState { regs, ..self }
    }

    pub open spec fn with_pc(self, pc: u16) -> MachineState {
        MachineState { regs: Registers { pc, ..self.regs }, ..self }
    }

    /// The 16-bit register that field `p` names: `BC`, `DE`, `HL`, `SP`.
    pub open spec fn pair(self, p: u8) -> u16 {
        if p == 0 {
            self.regs.spec_bc()
        } else if p == 1 {
            self.regs.spec_de()
        } else if p == 2 {
            self.regs.spec_hl()
        } else {
            self.regs.sp
        }
    }

    /// The state with `val` in the 16-bit register that field `p` names.
    pub open spec fn set_pair(self, p: u8, val: u16) -> MachineState {
        self.with_regs(
            if p == 0 {
                self.regs.spec_set_bc(val)
            } else if p == 1 {
                self.regs.spec_set_de(val)
            } else if p == 2 {
                self.regs.spec_set_hl(val)
            } else {
                Registers { sp: val, ..self.regs }
            },
        )
    }

    /// The 16-bit register that field `p` of a push or pop names: `BC`,
    /// `DE`, `HL`, `AF`.
    pub open spec fn stack_pair(self, p: u8) -> u16 {
        if p == 0 {
            self.regs.spec_bc()
        } else if p == 1 {
            self.regs.spec_de()
        } else if p == 2 {
            self.regs.spec_hl()
        } else {
            self.regs.spec_af()
        }
    }

    /// The state with `val` in the register that field `p` of a pop names.
    pub open spec fn set_stack_pair(self, p: u8, val: u16) -> MachineState {
        self.with_regs(
            if p == 0 {
                self.regs.spec_set_bc(val)
            } else if p == 1 {
                self.regs.spec_set_de(val)
            } else if p == 2 {
                self.regs.spec_set_hl(val)
            } else {
                self.regs.spec_set_af(val)
            },
        )
    }

    /// The branch condition that field `c` names: not Zero, Zero, not
    /// Carry, Carry.
    pub open spec fn condition(self, c: u8) -> bool {
        if c == 0 {
            !self.regs.spec_flag(CpuFlag::Z)
        } else if c == 1 {
            self.regs.spec_flag(CpuFlag::Z)
        } else if c == 2 {
            !self.regs.spec_flag(CpuFlag::C)
        } else {
            self.regs.spec_flag(CpuFlag::C)
        }
    }

    /// The byte that follows the opcode.
    pub open spec fn imm8(self) -> Result<u8, VmExit> {
        if self.regs.pc == 0xFFFF {
            Err(VmExit::OobRead)
        } else {
            self.memory.read_byte((self.regs.pc + 1) as u16)
        }
    }

    /// The little-endian word that follows the opcode.
    pub open spec fn imm16(self) -> Result<u16, VmExit> {
        if self.regs.pc == 0xFFFF {
            Err(VmExit::OobRead)
        } else {
            self.memory.read_word((self.regs.pc + 1) as u16)
        }
    }

    /// The value of an operand.
    pub open spec fn load(self, loc: Operand) -> Result<u8, VmExit> {
        match loc {
            Operand::B => Ok(self.regs.b),
            Operand::C => Ok(self.regs.c),
            Operand::D => Ok(self.regs.d),
            Operand::E => Ok(self.regs.e),
            Operand::H => Ok(self.regs.h),
            Operand::L => Ok(self.regs.l),
            Operand::HlIndirect => self.memory.read_byte(self.regs.spec_hl()),
            Operand::A => Ok(self.regs.a),
        }
    }

    /// The state after `val` was stored in an operand.
    pub open spec fn store(self, loc: Operand, val: u8) -> Result<MachineState, VmExit> {
        match loc {
            Operand::B => Ok(self.with_regs(Registers { b: val, ..self.regs })),
            Operand::C => Ok(self.with_regs(Registers { c: val, ..self.regs })),
            Operand::D => Ok(self.with_regs(Registers { d: val, ..self.regs })),
            Operand::E => Ok(self.with_regs(Registers { e: val, ..self.regs })),
            Operand::H => Ok(self.with_regs(Registers { h: val, ..self.regs })),
            Operand::L => Ok(self.with_regs(Registers { l: val, ..self.regs })),
            Operand::HlIndirect => match self.memory.write_byte(self.regs.spec_hl(), val) {
                Ok(memory) => Ok(MachineState { memory, ..self }),
                Err(e) => Err(e),
            },
            Operand::A => Ok(self.with_regs(Registers { a: val, ..self.regs })),
        }
    }

    /// The state after `val` was pushed: `SP` goes down by 2, then the word
    /// is written at `SP`. A stack pointer below 2 is refused.
    pub open spec fn push16(self, val: u16) -> Result<MachineState, VmExit> {
        if self.regs.sp < 2 {
            Err(VmExit::OobRead)
        } else {
            let sp = (self.regs.sp - 2) as u16;
            match self.memory.write_word(sp, val) {
                Ok(memory) => Ok(MachineState { regs: Registers { sp, ..self.regs }, memory }),
                Err(e) => Err(e),
            }
        }
    }

    /// The word on top of the stack, and the state after it was popped: the
    /// word is read at `SP`, then `SP` goes up by 2. A stack pointer above
    /// 0xFFFD is refused.
    pub open spec fn pop16(self) -> Result<(MachineState, u16), VmExit> {
        if self.regs.sp > 0xFFFD {
            Err(VmExit::OobRead)
        } else {
            match self.memory.read_word(self.regs.sp) {
                Ok(val) => Ok(
                    (self.with_regs(Registers { sp: (self.regs.sp + 2) as u16, ..self.regs }), val),
                ),
                Err(e) => Err(e),
            }
        }
    }

    /// The end of an instruction of `len` bytes that did not set `PC`: `PC`
    /// moves past it. An instruction whose successor lies beyond 0xFFFF is
    /// refused.
    pub open spec fn done(self, len: u16, cycles: u8) -> Result<(MachineState, u8), VmExit> {
        if self.regs.pc + len > 0xFFFF {
            Err(VmExit::OobRead)
        } else {
            Ok((self.with_pc((self.regs.pc + len) as u16), cycles))
        }
    }

    /// The end of an instruction that set `PC` to `target`.
    pub open spec fn jump(self, target: u16, cycles: u8) -> Result<(MachineState, u8), VmExit> {
        Ok((self.with_pc(target), cycles))
    }

    /// A relative jump: `PC` moves past the two bytes of the instruction and
    /// by the sign-extended offset byte, wrapping around the address space.
    pub open spec fn jr(self) -> Result<(MachineState, u8), VmExit> {
        match self.imm8() {
            Ok(offset) => self.jump(
                self.regs.pc.wrapping_add(spec_sign_extend(offset)).wrapping_add(2),
                3,
            ),
            Err(e) => Err(e),
        }
    }

    /// A call: the address of the next instruction is pushed and `PC` is set
    /// to the word that follows the opcode.
    pub open spec fn call(self) -> Result<(MachineState, u8), VmExit> {
        match self.imm16() {
            Ok(target) => if self.regs.pc > 0xFFFC {
                Err(VmExit::OobRead)
            } else {
                match self.push16((self.regs.pc + 3) as u16) {
                    Ok(m) => m.jump(target, 6),
                    Err(e) => Err(e),
                }
            },
            Err(e) => Err(e),
        }
    }

    /// A return: `PC` is set to the word popped off the stack.
    pub open spec fn ret(self, cycles: u8) -> Result<(MachineState, u8), VmExit> {
        match self.pop16() {
            Ok((m, target)) => m.jump(target, cycles),
            Err(e) => Err(e),
        }
    }

    /// Opcodes 0x00 to 0x3F with `z = 0`: no-op, load of `SP` from the word
    /// that follows, STOP, and the relative jumps.
    #[verifier::opaque]
    pub open spec fn exec_misc(self, y: u8) -> Result<(MachineState, u8), VmExit> {
        if y == 0 {
            self.done(1, 1)
        } else if y == 1 {
            match self.imm16() {
                Ok(val) => self.set_pair(3, val).done(3, 5),
                Err(e) => Err(e),
            }
        } else if y == 2 {
            Err(VmExit::Stop)
        } else if y == 3 || self.condition((y - 4) as u8) {
            self.jr()
        } else {
            self.done(2, 2)
        }
    }

    /// Opcodes 0x00 to 0x3F with `z = 2`: loads between `A` and memory at
    /// `BC`, `DE` or `HL`, the last with `HL` then moved up (`y` 4, 5) or
    /// down (`y` 6, 7) by one. Even `y` stores `A`, odd `y` loads it.
    #[verifier::opaque]
    pub open spec fn exec_indirect(self, y: u8) -> Result<(MachineState, u8), VmExit> {
        let address = if y < 2 {
            self.regs.spec_bc()
        } else if y < 4 {
            self.regs.spec_de()
        } else {
            self.regs.spec_hl()
        };
        let regs = if y < 4 {
            self.regs
        } else if y < 6 {
            self.regs.spec_set_hl(self.regs.spec_hl().wrapping_add(1))
        } else {
            self.regs.spec_set_hl(self.regs.spec_hl().wrapping_sub(1))
        };
        if y % 2 == 0 {
            match self.memory.write_byte(address, self.regs.a) {
                Ok(memory) => (MachineState { regs, memory }).done(1, 2),
                Err(e) => Err(e),
            }
        } else {
            match self.memory.read_byte(address) {
                Ok(val) => self.with_regs(Registers { a: val, ..regs }).done(1, 2),
                Err(e) => Err(e),
            }
        }
    }

    /// Opcodes 0x00 to 0x3F with `z = 4` or `z = 5`: increment or decrement
    /// of the operand that `y` names.
    #[verifier::opaque]
    pub open spec fn exec_inc_dec(self, y: u8, z: u8) -> Result<(MachineState, u8), VmExit> {
        let loc = Operand::spec_from_index(y);
        match self.load(loc) {
            Ok(val) => {
                let (regs, res) = if z == 4 {
                    self.regs.alu_inc8(val)
                } else {
                    self.regs.alu_dec8(val)
                };
                match self.with_regs(regs).store(loc, res) {
                    Ok(m) => m.done(1, if y == 6 { 3u8 } else { 1u8 }),
                    Err(e) => Err(e),
                }
            },
            Err(e) => Err(e),
        }
    }

    /// Opcodes 0x00 to 0x3F with `z = 7`: the rotates of `A`, complement,
    /// and the carry flag operations. Decimal adjust is not implemented.
    #[verifier::opaque]
    pub open spec fn exec_accumulator(self, y: u8) -> Result<(MachineState, u8), VmExit> {
        if y == 4 {
            Err(VmExit::Unimplemented)
        } else {
            self.with_regs(
                if y == 0 {
                    self.regs.alu_rlca()
                } else if y == 1 {
                    self.regs.alu_rrca()
                } else if y == 2 {
                    self.regs.alu_rla()
                } else if y == 3 {
                    self.regs.alu_rra()
                } else if y == 5 {
                    self.regs.alu_cpl()
                } else if y == 6 {
                    self.regs.alu_scf()
                } else {
                    self.regs.alu_ccf()
                },
            ).done(1, 1)
        }
    }

    /// Opcodes 0x00 to 0x3F.
    #[verifier::opaque]
    pub open spec fn exec_q0(self, op: u8) -> Result<(MachineState, u8), VmExit> {
        let y = op / 8;
        let z = op % 8;
        if z == 0 {
            self.exec_misc(y)
        } else if z == 1 {
            if y % 2 == 0 {
                match self.imm16() {
                    Ok(val) => self.set_pair(y / 2, val).done(3, 3),
                    Err(e) => Err(e),
                }
            } else {
                self.with_regs(self.regs.alu_add_hl(self.pair(y / 2))).done(1, 2)
            }
        } else if z == 2 {
            self.exec_indirect(y)
        } else if z == 3 {
            self.set_pair(
                y / 2,
                if y % 2 == 0 {
                    self.pair(y / 2).wrapping_add(1)
                } else {
                    self.pair(y / 2).wrapping_sub(1)
                },
            ).done(1, 2)
        } else if z == 4 || z == 5 {
            self.exec_inc_dec(y, z)
        } else if z == 6 {
            match self.imm8() {
                Ok(val) => match self.store(Operand::spec_from_index(y), val) {
                    Ok(m) => m.done(2, if y == 6 { 3u8 } else { 2u8 }),
                    Err(e) => Err(e),
                },
                Err(e) => Err(e),
            }
        } else {
            self.exec_accumulator(y)
        }
    }

    /// Opcodes 0x40 to 0x7F: load of the operand that `y` names from the
    /// operand that `z` names. Opcode 0x76 is HALT.
    #[verifier::opaque]
    pub open spec fn exec_ld(self, op: u8) -> Result<(MachineState, u8), VmExit> {
        let y = (op / 8) % 8;
        let z = op % 8;
        if y == 6 && z == 6 {
            Err(VmExit::Halt)
        } else {
            match self.load(Operand::spec_from_index(z)) {
                Ok(val) => match self.store(Operand::spec_from_index(y), val) {
                    Ok(m) => m.done(1, if y == 6 || z == 6 { 2u8 } else { 1u8 }),
                    Err(e) => Err(e),
                },
                Err(e) => Err(e),
            }
        }
    }

    /// Opcodes 0x80 to 0xBF: the operation on `A` that `y` names, with the
    /// operand that `z` names.
    #[verifier::opaque]
    pub open spec fn exec_alu(self, op: u8) -> Result<(MachineState, u8), VmExit> {
        let y = (op / 8) % 8;
        let z = op % 8;
        match self.load(Operand::spec_from_index(z)) {
            Ok(val) => self.with_regs(self.regs.alu(y, val)).done(1, if z == 6 { 2u8 } else { 1u8 }),
            Err(e) => Err(e),
        }
    }

    /// Opcodes 0xC0 to 0xFF with `z = 0`: conditional returns, the loads
    /// between `A` and the page at 0xFF00, and the stack pointer with an
    /// offset.
    #[verifier::opaque]
    pub open spec fn exec_q3_z0(self, y: u8) -> Result<(MachineState, u8), VmExit> {
        if y < 4 {
            if self.condition(y) {
                self.ret(5)
            } else {
                self.done(1, 2)
            }
        } else {
            match self.imm8() {
                Ok(val) => if y == 4 {
                    match self.memory.write_byte((0xFF00 + val) as u16, self.regs.a) {
                        Ok(memory) => (MachineState { memory, ..self }).done(2, 3),
                        Err(e) => Err(e),
                    }
                } else if y == 5 {
                    self.with_regs(
                        Registers {
                            sp: self.regs.sp.wrapping_add(val as u16),
                            ..self.regs.alu_offset_flags(val)
                        },
                    ).done(2, 4)
                } else if y == 6 {
                    match self.memory.read_byte((0xFF00 + val) as u16) {
                        Ok(byte) => self.with_regs(Registers { a: byte, ..self.regs }).done(2, 3),
                        Err(e) => Err(e),
                    }
                } else {
                    self.with_regs(
                        self.regs.alu_offset_flags(val).spec_set_hl(
                            self.regs.sp.wrapping_add(val as u16),
                        ),
                    ).done(2, 3)
                },
                Err(e) => Err(e),
            }
        }
    }

    /// Opcodes 0xC0 to 0xFF with `z = 1`: pops, returns, the jump through
    /// the word at `HL`, and the load of `SP` from `HL`.
    #[verifier::opaque]
    pub open spec fn exec_q3_z1(self, y: u8) -> Result<(MachineState, u8), VmExit> {
        if y % 2 == 0 {
            match self.pop16() {
                Ok((m, val)) => m.set_stack_pair(y / 2, val).done(1, 3),
                Err(e) => Err(e),
            }
        } else if y == 1 || y == 3 {
            self.ret(4)
        } else if y == 5 {
            match self.memory.read_word(self.regs.spec_hl()) {
                Ok(target) => self.jump(target, 1),
                Err(e) => Err(e),
            }
        } else {
            self.set_pair(3, self.regs.spec_hl()).done(1, 2)
        }
    }

    /// Opcodes 0xC0 to 0xFF with `z = 2`: conditional jumps and the loads
    /// between `A` and memory at 0xFF00 + `C` or at the word that follows.
    #[verifier::opaque]
    pub open spec fn exec_q3_z2(self, y: u8) -> Result<(MachineState, u8), VmExit> {
        if y < 4 {
            if self.condition(y) {
                match self.imm16() {
                    Ok(target) => self.jump(target, 4),
                    Err(e) => Err(e),
                }
            } else {
                self.done(3, 3)
            }
        } else if y == 4 {
            match self.memory.write_byte((0xFF00 + self.regs.c) as u16, self.regs.a) {
                Ok(memory) => (MachineState { memory, ..self }).done(1, 2),
                Err(e) => Err(e),
            }
        } else if y == 6 {
            match self.memory.read_byte((0xFF00 + self.regs.c) as u16) {
                Ok(byte) => self.with_regs(Registers { a: byte, ..self.regs }).done(1, 2),
                Err(e) => Err(e),
            }
        } else {
            match self.imm16() {
                Ok(address) => if y == 5 {
                    match self.memory.write_byte(address, self.regs.a) {
                        Ok(memory) => (MachineState { memory, ..self }).done(3, 4),
                        Err(e) => Err(e),
                    }
                } else {
                    match self.memory.read_byte(address) {
                        Ok(byte) => self.with_regs(Registers { a: byte, ..self.regs }).done(3, 4),
                        Err(e) => Err(e),
                    }
                },
                Err(e) => Err(e),
            }
        }
    }

    /// Rotate left through carry of an operand, in place.
    pub open spec fn alu_rl(self, loc: Operand) -> Result<MachineState, VmExit> {
        match self.load(loc) {
            Ok(val) => self.with_regs(self.regs.alu_rl(val).0).store(loc, self.regs.alu_rl(val).1),
            Err(e) => Err(e),
        }
    }

    /// Nibble swap of an operand, in place.
    pub open spec fn alu_swap(self, loc: Operand) -> Result<MachineState, VmExit> {
        match self.load(loc) {
            Ok(val) => self.with_regs(self.regs.alu_swap(val).0).store(
                loc,
                self.regs.alu_swap(val).1,
            ),
            Err(e) => Err(e),
        }
    }

    /// Logical shift right of an operand, in place.
    pub open spec fn alu_srl(self, loc: Operand) -> Result<MachineState, VmExit> {
        match self.load(loc) {
            Ok(val) => self.with_regs(self.regs.alu_srl(val).0).store(loc, self.regs.alu_srl(val).1),
            Err(e) => Err(e),
        }
    }

    /// The operation that group `group` of the two-byte opcodes names,
    /// applied to an operand: rotate left through carry (2), nibble swap
    /// (6), logical shift right (7) and test of bit 7 (15). The other groups
    /// are not implemented.
    #[verifier::opaque]
    pub open spec fn exec_cb_group(self, group: u8, loc: Operand) -> Result<MachineState, VmExit> {
        if group == 2 {
            self.alu_rl(loc)
        } else if group == 6 {
            self.alu_swap(loc)
        } else if group == 7 {
            self.alu_srl(loc)
        } else if group == 15 {
            match self.load(loc) {
                Ok(val) => Ok(self.with_regs(self.regs.alu_bit(val, 7))),
                Err(e) => Err(e),
            }
        } else {
            Err(VmExit::Unimplemented)
        }
    }

    /// The two-byte opcodes behind the prefix 0xCB: the byte that follows
    /// names the operation by its upper five bits and the operand by its
    /// lower three. An operation on memory costs four machine cycles, one on
    /// a register two.
    #[verifier::opaque]
    pub open spec fn exec_cb(self) -> Result<(MachineState, u8), VmExit> {
        match self.imm8() {
            Ok(sub) => match self.exec_cb_group(sub / 8, Operand::spec_from_index(sub)) {
                Ok(m) => m.done(2, if sub % 8 == 6 { 4u8 } else { 2u8 }),
                Err(e) => Err(e),
            },
            Err(e) => Err(e),
        }
    }

    /// Opcodes 0xC0 to 0xFF.
    #[verifier::opaque]
    pub open spec fn exec_q3(self, op: u8) -> Result<(MachineState, u8), VmExit> {
        let y = (op / 8) % 8;
        let z = op % 8;
        if z == 0 {
            self.exec_q3_z0(y)
        } else if z == 1 {
            self.exec_q3_z1(y)
        } else if z == 2 {
            self.exec_q3_z2(y)
        } else if z == 3 {
            if y == 0 {
                match self.imm16() {
                    Ok(target) => self.jump(target, 4),
                    Err(e) => Err(e),
                }
            } else if y == 1 {
                self.exec_cb()
            } else if y == 6 || y == 7 {
                self.done(1, 1)
            } else {
                Err(VmExit::Unimplemented)
            }
        } else if z == 4 {
            if y >= 4 {
                Err(VmExit::Unimplemented)
            } else if self.condition(y) {
                self.call()
            } else {
                self.done(3, 3)
            }
        } else if z == 5 {
            if y % 2 == 0 {
                match self.push16(self.stack_pair(y / 2)) {
                    Ok(m) => m.done(1, 4),
                    Err(e) => Err(e),
                }
            } else if y == 1 {
                self.call()
            } else {
                Err(VmExit::Unimplemented)
            }
        } else if z == 6 {
            match self.imm8() {
                Ok(val) => self.with_regs(self.regs.alu(y, val)).done(2, 2),
                Err(e) => Err(e),
            }
        } else if self.regs.pc == 0xFFFF {
            Err(VmExit::OobRead)
        } else {
            match self.push16((self.regs.pc + 1) as u16) {
                Ok(m) => m.jump((y * 8) as u16, 4),
                Err(e) => Err(e),
            }
        }
    }

    /// The instruction with opcode `op`, executed at `PC`: the state after
    /// it and its cost in machine cycles, or the reason why the machine
    /// stops.
    #[verifier::opaque]
    pub open spec fn execute(self, op: u8) -> Result<(MachineState, u8), VmExit> {
        if op < 0x40 {
            self.exec_q0(op)
        } else if op < 0x80 {
            self.exec_ld(op)
        } else if op < 0xC0 {
            self.exec_alu(op)
        } else {
            self.exec_q3(op)
        }
    }

    /// The state with the pixel processing unit replaced.
    pub open spec fn with_gpu(self, gpu: GpuState) -> MachineState {
        MachineState { memory: MemoryState { gpu, ..self.memory }, ..self }
    }

    /// One step of the machine: the opcode at `PC` is fetched and executed,
    /// and the pixel processing unit advances by four clock ticks per
    /// machine cycle.
    ///
    /// While the pixel processing unit is blocked the machine stands still.
    /// An instruction that ends with an exit leaves the state as it was.
    pub open spec fn step(self) -> (MachineState, Result<FrameEvent, VmExit>) {
        if self.memory.gpu.blocked() {
            (self, Ok(FrameEvent::Blocked))
        } else {
            match self.memory.read_byte(self.regs.pc) {
                Ok(op) => match self.execute(op) {
                    Ok((m, cycles)) => {
                        let (gpu, event) = m.memory.gpu.step((cycles * 4) as usize);
                        (m.with_gpu(gpu), Ok(event))
                    },
                    Err(e) => (self, Err(e)),
                },
                Err(e) => (self, Err(e)),
            }
        }
    }

    /// The state after `n` steps.
    pub open spec fn steps(self, n: nat) -> MachineState
        decreases n,
    {
        if n == 0 {
            self
        } else {
            self.steps((n - 1) as nat).step().0
        }
    }

    /// The next step neither stops the machine nor completes a frame.
    pub open spec fn quiet(self) -> bool {
        self.step().1 == Ok::<FrameEvent, VmExit>(FrameEvent::Running)
    }

    /// A run from this state takes `n` quiet steps and one more, which ends
    /// it in state `end` with result `res`: the exit reason, or `Ok` where a
    /// frame was completed or the producer is blocked.
    pub open spec fn runs_to(self, n: nat, end: MachineState, res: Result<(), VmExit>) -> bool {
        &&& forall|k: nat| k < n ==> #[trigger] self.steps(k).quiet()
        &&& !self.steps(n).quiet()
        &&& end == self.steps(n).step().0
        &&& res == match self.steps(n).step().1 {
            Ok(_) => Ok::<(), VmExit>(()),
            Err(e) => Err::<(), VmExit>(e),
        }
    }
}

/// A two-byte operation outside the four implemented groups ends with
/// `Unimplemented`; one of the four leaves `PC` alone and fails with no
/// other exit than `OobRead`.
pub proof fn lemma_cb_group(m: MachineState, group: u8, loc: Operand)
    ensures
        group != 2 && group != 6 && group != 7 && group != 15 ==> m.exec_cb_group(group, loc)
            == Err::<MachineState, VmExit>(VmExit::Unimplemented),
        group == 2 || group == 6 || group == 7 || group == 15 ==> match m.exec_cb_group(
            group,
            loc,
        ) {
            Ok(after) => after.regs.pc == m.regs.pc,
            Err(e) => e == VmExit::OobRead,
        },
{
    reveal(MachineState::exec_cb_group);
}

} // verus!
