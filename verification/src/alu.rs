//! What the arithmetic and logic operations do to the register file.
//!
//! Each function gives the registers after the operation, flags included.
//! The half-carry flag follows the machine's own boundary checks, which are
//! not the carry out of bit 3.

use crate::registers::{spec_bit, CpuFlag, Registers};
use vstd::prelude::*;

verus! {

impl Registers {
    /// 8-bit increment: the result wraps; Zero is set iff the result is 0,
    /// Subtract is cleared, Half-carry is set where the low five bits of the
    /// result are `10000` and kept otherwise, Carry is kept.
    pub open spec fn alu_inc8(self, val: u8) -> (Registers, u8) {
        let res = val.wrapping_add(1);
        (
            self.with_flags(
                res == 0,
                false,
                self.spec_flag(CpuFlag::H) || res % 32 == 16,
                self.spec_flag(CpuFlag::C),
            ),
            res,
        )
    }

    /// 8-bit decrement: the result wraps; Zero is set iff the result is 0,
    /// Subtract is set, Half-carry is set where the low five bits of the
    /// result are `01111` and kept otherwise, Carry is kept.
    pub open spec fn alu_dec8(self, val: u8) -> (Registers, u8) {
        let res = val.wrapping_sub(1);
        (
            self.with_flags(
                res == 0,
                true,
                self.spec_flag(CpuFlag::H) || res % 32 == 15,
                self.spec_flag(CpuFlag::C),
            ),
            res,
        )
    }

    /// 16-bit add into `HL`: the sum wraps; Subtract is cleared, Half-carry
    /// is set iff the true sum reaches 2^12, Carry iff it reaches 2^16, and
    /// Zero is kept.
    pub open spec fn alu_add_hl(self, val: u16) -> Registers {
        let sum = val + self.spec_hl();
        self.with_flags(self.spec_flag(CpuFlag::Z), false, sum >= 0x1000, sum >= 0x10000).spec_set_hl(
            val.wrapping_add(self.spec_hl()),
        )
    }

    /// Flags after an offset was added to the stack pointer: Zero and
    /// Subtract cleared, Half-carry set iff the sum of the unsigned offset
    /// and `SP` reaches 16, Carry iff it reaches 256.
    pub open spec fn alu_offset_flags(self, val: u8) -> Registers {
        let sum = val + self.sp;
        self.with_flags(false, false, sum >= 0x10, sum >= 0x100)
    }

    /// Add into `A`: the sum wraps; Zero is set iff the result is 0,
    /// Subtract is cleared, Half-carry is set iff the true sum reaches 16,
    /// Carry iff it reaches 256.
    pub open spec fn alu_add(self, val: u8) -> Registers {
        let sum = val + self.a;
        let res = val.wrapping_add(self.a);
        Registers { a: res, ..self.with_flags(res == 0, false, sum >= 0x10, sum >= 0x100) }
    }

    /// The operand of an add or subtract with carry: one more, wrapping,
    /// where Carry is set.
    pub open spec fn with_carry(self, val: u8) -> u8 {
        if self.spec_flag(CpuFlag::C) {
            val.wrapping_add(1)
        } else {
            val
        }
    }

    /// Add with carry into `A`: an add of the operand plus the Carry flag.
    pub open spec fn alu_adc(self, val: u8) -> Registers {
        self.alu_add(self.with_carry(val))
    }

    /// Subtract from `A`: the difference wraps; Zero is set iff the result
    /// is 0, Subtract is set, Half-carry is set iff operand plus `A` reaches
    /// 16, Carry iff the operand is greater than `A`.
    pub open spec fn alu_sub(self, val: u8) -> Registers {
        let res = self.a.wrapping_sub(val);
        Registers { a: res, ..self.with_flags(res == 0, true, val + self.a >= 0x10, val > self.a) }
    }

    /// Subtract with carry from `A`: a subtract of the operand plus the
    /// Carry flag.
    pub open spec fn alu_sbc(self, val: u8) -> Registers {
        self.alu_sub(self.with_carry(val))
    }

    /// Bitwise and into `A`: Zero from the result, Half-carry set, Subtract
    /// and Carry cleared.
    pub open spec fn alu_and(self, val: u8) -> Registers {
        let res = self.a & val;
        Registers { a: res, ..self.with_flags(res == 0, false, true, false) }
    }

    /// Bitwise exclusive or into `A`: Zero from the result, the other flags
    /// cleared.
    pub open spec fn alu_xor(self, val: u8) -> Registers {
        let res = self.a ^ val;
        Registers { a: res, ..self.with_flags(res == 0, false, false, false) }
    }

    /// Bitwise or into `A`: Zero from the result, the other flags cleared.
    pub open spec fn alu_or(self, val: u8) -> Registers {
        let res = self.a | val;
        Registers { a: res, ..self.with_flags(res == 0, false, false, false) }
    }

    /// Compare with `A`: the flags of a subtract, `A` unchanged.
    pub open spec fn alu_cp(self, val: u8) -> Registers {
        self.with_flags(self.a.wrapping_sub(val) == 0, true, val + self.a >= 0x10, val > self.a)
    }

    /// One of the eight operations on `A`, by its number in the opcode:
    /// add, add with carry, subtract, subtract with carry, and, exclusive
    /// or, or, compare.
    pub open spec fn alu(self, op: u8, val: u8) -> Registers {
        if op == 0 {
            self.alu_add(val)
        } else if op == 1 {
            self.alu_adc(val)
        } else if op == 2 {
            self.alu_sub(val)
        } else if op == 3 {
            self.alu_sbc(val)
        } else if op == 4 {
            self.alu_and(val)
        } else if op == 5 {
            self.alu_xor(val)
        } else if op == 6 {
            self.alu_or(val)
        } else {
            self.alu_cp(val)
        }
    }

    /// Rotate left through carry: the old Carry enters at bit 0 and bit 7
    /// leaves into Carry; Zero from the result.
    pub open spec fn alu_rl(self, val: u8) -> (Registers, u8) {
        let res = ((val * 2) % 256 + if self.spec_flag(CpuFlag::C) { 1int } else { 0 }) as u8;
        (self.with_flags(res == 0, false, false, val >= 128), res)
    }

    /// Swap of the two nibbles: Zero from the result, the other flags
    /// cleared.
    pub open spec fn alu_swap(self, val: u8) -> (Registers, u8) {
        let res = (val / 16 + (val % 16) * 16) as u8;
        (self.with_flags(res == 0, false, false, false), res)
    }

    /// Logical shift right: bit 0 leaves into Carry; Zero from the result.
    pub open spec fn alu_srl(self, val: u8) -> (Registers, u8) {
        let res = val / 2;
        (self.with_flags(res == 0, false, false, val % 2 == 1), res)
    }

    /// Test of bit `n`: Zero is set iff the bit is 0; the other flags stay.
    pub open spec fn alu_bit(self, val: u8, n: u8) -> Registers {
        self.spec_set_flag(CpuFlag::Z, !spec_bit(val, n))
    }

    /// Rotate `A` left: bit 7 enters at bit 0 and into Carry; the other
    /// flags are cleared.
    pub open spec fn alu_rlca(self) -> Registers {
        let carry = self.a >= 128;
        Registers {
            a: ((self.a * 2) % 256 + if carry { 1int } else { 0 }) as u8,
            ..self.with_flags(false, false, false, carry)
        }
    }

    /// Rotate `A` right: bit 0 enters at bit 7 and into Carry; the other
    /// flags are cleared.
    pub open spec fn alu_rrca(self) -> Registers {
        let carry = self.a % 2 == 1;
        Registers {
            a: (self.a / 2 + if carry { 128int } else { 0 }) as u8,
            ..self.with_flags(false, false, false, carry)
        }
    }

    /// Rotate `A` left through carry, with Zero cleared.
    pub open spec fn alu_rla(self) -> Registers {
        let (r, res) = self.alu_rl(self.a);
        Registers { a: res, ..r.with_flags(false, false, false, self.a >= 128) }
    }

    /// Shift `A` right by one: bit 0 leaves into Carry; the other flags are
    /// cleared.
    pub open spec fn alu_rra(self) -> Registers {
        Registers { a: self.a / 2, ..self.with_flags(false, false, false, self.a % 2 == 1) }
    }

    /// Complement of `A`: Subtract and Half-carry set, Zero and Carry kept.
    pub open spec fn alu_cpl(self) -> Registers {
        Registers {
            a: (255 - self.a) as u8,
            ..self.with_flags(self.spec_flag(CpuFlag::Z), true, true, self.spec_flag(CpuFlag::C))
        }
    }

    /// Carry set; Subtract and Half-carry cleared, Zero kept.
    pub open spec fn alu_scf(self) -> Registers {
        self.with_flags(self.spec_flag(CpuFlag::Z), false, false, true)
    }

    /// Carry complemented; Subtract and Half-carry cleared, Zero kept.
    pub open spec fn alu_ccf(self) -> Registers {
        self.with_flags(self.spec_flag(CpuFlag::Z), false, false, !self.spec_flag(CpuFlag::C))
    }
}

/// The bit operations of the rotates, shifts and boundary checks, stated as
/// arithmetic.
pub proof fn lemma_byte_ops(v: u8)
    ensures
        ((v & 0x80) == 0x80) == (v >= 128),
        ((v & 0x01) == 0x01) == (v % 2 == 1),
        (v << 1) == (v * 2) % 256,
        ((v << 1) | 1) == (v * 2) % 256 + 1,
        ((v << 1) | 0) == (v * 2) % 256,
        (v >> 1) == v / 2,
        ((v >> 1) | 0x80) == v / 2 + 128,
        ((v >> 1) | 0) == v / 2,
        ((v >> 4) | ((v & 0x0F) << 4)) == v / 16 + (v % 16) * 16,
        (!v) == 255 - v,
        ((v & 0b11111) == 0b10000) == (v % 32 == 16),
        ((v & 0b11111) == 0b01111) == (v % 32 == 15),
{
    assert(((v & 0x80) == 0x80) == (v >= 128) && ((v & 0x01) == 0x01) == (v % 2 == 1) && (v << 1)
        == (v * 2) % 256 && ((v << 1) | 1) == (v * 2) % 256 + 1 && ((v << 1) | 0) == (v * 2) % 256)
        by (bit_vector);
    assert((v >> 1) == v / 2 && ((v >> 1) | 0x80) == v / 2 + 128 && ((v >> 1) | 0) == v / 2 && ((v
        >> 4) | ((v & 0x0F) << 4)) == v / 16 + (v % 16) * 16 && (!v) == 255 - v && ((v & 0b11111)
        == 0b10000) == (v % 32 == 16) && ((v & 0b11111) == 0b01111) == (v % 32 == 15))
        by (bit_vector);
}

} // verus!
