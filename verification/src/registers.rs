//! The CPU register file and its condition flags.

use vstd::prelude::*;

verus! {

/// One of the four condition codes kept in the upper half of the flags
/// register `F`.
#[derive(Clone, Copy, Debug, PartialEq, Eq, Structural)]
pub enum CpuFlag {
    /// Carry, bit 4.
    C,
    /// Half-carry, bit 5.
    H,
    /// Subtract, bit 6.
    N,
    /// Zero, bit 7.
    Z,
}

impl CpuFlag {
    /// The bit of `F` that holds this flag.
    pub open spec fn spec_mask(self) -> u8 {
        match self {
            CpuFlag::C => 0x10,
            CpuFlag::H => 0x20,
            CpuFlag::N => 0x40,
            CpuFlag::Z => 0x80,
        }
    }

    /// The bit of `F` that holds this flag.
    #[verifier::when_used_as_spec(spec_mask)]
    pub fn mask(self) -> (m: u8)
        ensures
            m == self.spec_mask(),
    {
        match self {
            CpuFlag::C => 0x10,
            CpuFlag::H => 0x20,
            CpuFlag::N => 0x40,
            CpuFlag::Z => 0x80,
        }
    }
}

/// The value of `F` in which exactly the given flags are set.
pub open spec fn flag_bits(z: bool, n: bool, h: bool, c: bool) -> u8 {
    ((if z { 0x80int } else { 0 }) + (if n { 0x40int } else { 0 }) + (if h { 0x20int } else { 0 })
        + (if c { 0x10int } else { 0 })) as u8
}

/// The 16-bit value whose high byte is `hi` and whose low byte is `lo`.
pub open spec fn spec_pair(hi: u8, lo: u8) -> u16 {
    (hi as int * 256 + lo as int) as u16
}

/// Joins two bytes into a 16-bit value, high byte first.
#[verifier::when_used_as_spec(spec_pair)]
pub fn pair(hi: u8, lo: u8) -> (r: u16)
    ensures
        r == spec_pair(hi, lo),
{
    let r = ((hi as u16) << 8) | (lo as u16);
    assert(((hi as u16) << 8) | (lo as u16) == (hi as u16) * 256 + (lo as u16)) by (bit_vector);
    r
}

/// The high byte of a 16-bit value.
pub open spec fn spec_high(val: u16) -> u8 {
    (val / 256) as u8
}

/// The low byte of a 16-bit value.
pub open spec fn spec_low(val: u16) -> u8 {
    (val % 256) as u8
}

/// The high byte of a 16-bit value.
#[verifier::when_used_as_spec(spec_high)]
pub fn high(val: u16) -> (r: u8)
    ensures
        r == spec_high(val),
{
    assert((val >> 8) == val / 256 && (val >> 8) < 256) by (bit_vector);
    (val >> 8) as u8
}

/// The low byte of a 16-bit value.
#[verifier::when_used_as_spec(spec_low)]
pub fn low(val: u16) -> (r: u8)
    ensures
        r == spec_low(val),
{
    assert((val & 0xFF) == val % 256 && (val & 0xFF) < 256) by (bit_vector);
    (val & 0xFF) as u8
}

/// Whether bit `k` of `val` is set, bit 0 being the lowest.
pub open spec fn spec_bit(val: u8, k: u8) -> bool {
    (val as int / pow2(k)) % 2 == 1
}

/// Two to the power `k`, for the bit positions of a byte.
pub open spec fn pow2(k: u8) -> int {
    if k == 0 {
        1
    } else if k == 1 {
        2
    } else if k == 2 {
        4
    } else if k == 3 {
        8
    } else if k == 4 {
        16
    } else if k == 5 {
        32
    } else if k == 6 {
        64
    } else {
        128
    }
}

/// Whether bit `k` of `val` is set, bit 0 being the lowest.
#[verifier::when_used_as_spec(spec_bit)]
pub fn bit(val: u8, k: u8) -> (b: bool)
    requires
        k < 8,
    ensures
        b == spec_bit(val, k),
{
    assert(k < 8 ==> (((val >> k) & 1 == 1) == ((val / (1u8 << k)) % 2 == 1))) by (bit_vector);
    assert(k < 8 ==> (1u8 << k) == (if k == 0 {
        1u8
    } else if k == 1 {
        2u8
    } else if k == 2 {
        4u8
    } else if k == 3 {
        8u8
    } else if k == 4 {
        16u8
    } else if k == 5 {
        32u8
    } else if k == 6 {
        64u8
    } else {
        128u8
    })) by (bit_vector);
    (val >> k) & 1 == 1
}

/// The register file: eight 8-bit registers, the stack pointer and the
/// program counter.
#[derive(Clone, Copy, Debug, PartialEq, Eq, Structural)]
pub struct Registers {
    pub a: u8,
    pub b: u8,
    pub c: u8,
    pub d: u8,
    pub e: u8,
    pub f: u8,
    pub h: u8,
    pub l: u8,
    pub sp: u16,
    pub pc: u16,
}

impl Registers {
    /// The low nibble of `F` is always zero.
    pub open spec fn wf(self) -> bool {
        self.f % 16 == 0
    }

    /// Whether `flag` is set: bit 7 of `F` for Zero, bit 6 for Subtract,
    /// bit 5 for Half-carry and bit 4 for Carry.
    pub open spec fn spec_flag(&self, flag: CpuFlag) -> bool {
        match flag {
            CpuFlag::Z => self.f >= 128,
            CpuFlag::N => self.f % 128 >= 64,
            CpuFlag::H => self.f % 64 >= 32,
            CpuFlag::C => self.f % 32 >= 16,
        }
    }

    /// These registers with `F` replaced by the given flags.
    pub open spec fn with_flags(self, z: bool, n: bool, h: bool, c: bool) -> Registers {
        Registers { f: flag_bits(z, n, h, c), ..self }
    }

    pub open spec fn spec_af(&self) -> u16 {
        spec_pair(self.a, self.f)
    }

    pub open spec fn spec_bc(&self) -> u16 {
        spec_pair(self.b, self.c)
    }

    pub open spec fn spec_de(&self) -> u16 {
        spec_pair(self.d, self.e)
    }

    pub open spec fn spec_hl(&self) -> u16 {
        spec_pair(self.h, self.l)
    }

    /// `A` is the high byte of `val`; `F` is its low byte without the low
    /// nibble.
    pub open spec fn spec_set_af(self, val: u16) -> Registers {
        Registers { a: spec_high(val), f: (spec_low(val) - spec_low(val) % 16) as u8, ..self }
    }

    pub open spec fn spec_set_bc(self, val: u16) -> Registers {
        Registers { b: spec_high(val), c: spec_low(val), ..self }
    }

    pub open spec fn spec_set_de(self, val: u16) -> Registers {
        Registers { d: spec_high(val), e: spec_low(val), ..self }
    }

    pub open spec fn spec_set_hl(self, val: u16) -> Registers {
        Registers { h: spec_high(val), l: spec_low(val), ..self }
    }

    /// `F` with the bit of `flag` set to `val` and every other bit as it was.
    pub open spec fn spec_set_flag(self, flag: CpuFlag, val: bool) -> Registers {
        Registers {
            f: if self.spec_flag(flag) == val {
                self.f
            } else if val {
                (self.f + flag.spec_mask()) as u8
            } else {
                (self.f - flag.spec_mask()) as u8
            },
            ..self
        }
    }

    /// `F` without its four flags.
    pub open spec fn spec_clear_flags(self) -> Registers {
        Registers { f: (self.f % 16) as u8, ..self }
    }

    /// All registers zero, as at power-on.
    pub fn new() -> (r: Registers)
        ensures
            r == (Registers { a: 0, b: 0, c: 0, d: 0, e: 0, f: 0, h: 0, l: 0, sp: 0, pc: 0 }),
            r.wf(),
    {
        Registers { a: 0, b: 0, c: 0, d: 0, e: 0, f: 0, h: 0, l: 0, sp: 0, pc: 0 }
    }

    /// Whether the register file is valid, see [`Registers::wf`].
    pub fn valid(&self) -> (b: bool)
        ensures
            b == self.wf(),
    {
        proof {
            lemma_flag_bit(self.f);
        }
        self.f & 0x0F == 0
    }

    /// The pair `A`, `F`.
    #[verifier::when_used_as_spec(spec_af)]
    pub fn af(&self) -> (r: u16)
        ensures
            r == self.spec_af(),
    {
        pair(self.a, self.f)
    }

    /// The pair `B`, `C`.
    #[verifier::when_used_as_spec(spec_bc)]
    pub fn bc(&self) -> (r: u16)
        ensures
            r == self.spec_bc(),
    {
        pair(self.b, self.c)
    }

    /// The pair `D`, `E`.
    #[verifier::when_used_as_spec(spec_de)]
    pub fn de(&self) -> (r: u16)
        ensures
            r == self.spec_de(),
    {
        pair(self.d, self.e)
    }

    /// The pair `H`, `L`.
    #[verifier::when_used_as_spec(spec_hl)]
    pub fn hl(&self) -> (r: u16)
        ensures
            r == self.spec_hl(),
    {
        pair(self.h, self.l)
    }

    /// Sets `A` to the high byte of `val` and `F` to the four flag bits of
    /// its low byte.
    pub fn set_af(&mut self, val: u16)
        ensures
            *final(self) == old(self).spec_set_af(val),
            final(self).wf(),
    {
        let lo = low(val);
        assert((lo & 0xF0) == lo - lo % 16) by (bit_vector);
        self.a = high(val);
        self.f = lo & 0xF0;
    }

    /// Sets `B` and `C` to the high and low byte of `val`.
    pub fn set_bc(&mut self, val: u16)
        ensures
            *final(self) == old(self).spec_set_bc(val),
            final(self).spec_bc() == val,
    {
        self.b = high(val);
        self.c = low(val);
    }

    /// Sets `D` and `E` to the high and low byte of `val`.
    pub fn set_de(&mut self, val: u16)
        ensures
            *final(self) == old(self).spec_set_de(val),
            final(self).spec_de() == val,
    {
        self.d = high(val);
        self.e = low(val);
    }

    /// Sets `H` and `L` to the high and low byte of `val`.
    pub fn set_hl(&mut self, val: u16)
        ensures
            *final(self) == old(self).spec_set_hl(val),
            final(self).spec_hl() == val,
    {
        self.h = high(val);
        self.l = low(val);
    }

    /// Sets or clears one flag and leaves every other bit of `F` as it was.
    pub fn set_flag(&mut self, flag: CpuFlag, val: bool)
        ensures
            *final(self) == old(self).spec_set_flag(flag, val),
            final(self).spec_flag(flag) == val,
            forall|other: CpuFlag|
                other != flag ==> final(self).spec_flag(other) == old(self).spec_flag(other),
            old(self).wf() ==> final(self).wf(),
    {
        let m = flag.mask();
        let f = self.f;
        proof {
            lemma_flag_bit(f);
            lemma_flag_bit(f | m);
            lemma_flag_bit(f & !m);
            lemma_set_bit(f, m, 0x10);
            lemma_set_bit(f, m, 0x20);
            lemma_set_bit(f, m, 0x40);
            lemma_set_bit(f, m, 0x80);
        }
        self.f = if val {
            f | m
        } else {
            f & !m
        };
    }

    /// Whether `flag` is set.
    #[verifier::when_used_as_spec(spec_flag)]
    pub fn flag(&self, flag: CpuFlag) -> (r: bool)
        ensures
            r == self.spec_flag(flag),
    {
        proof {
            lemma_flag_bit(self.f);
        }
        self.f & flag.mask() != 0
    }

    /// Clears all four flags.
    pub fn clear_flags(&mut self)
        ensures
            *final(self) == old(self).spec_clear_flags(),
            old(self).wf() ==> final(self).f == 0 && final(self).wf(),
    {
        let f = self.f;
        assert(f & 0b0000_1111 == f % 16) by (bit_vector);
        self.f = f & 0b0000_1111;
    }

    /// Replaces `F` by the four given flags.
    pub fn set_flags(&mut self, z: bool, n: bool, h: bool, c: bool)
        ensures
            *final(self) == old(self).with_flags(z, n, h, c),
            final(self).wf(),
    {
        let mut f: u8 = 0;
        if z {
            f = f + 0x80;
        }
        if n {
            f = f + 0x40;
        }
        if h {
            f = f + 0x20;
        }
        if c {
            f = f + 0x10;
        }
        self.f = f;
    }
}

/// Each flag mask tests the bit that the flag's place in `F` names, and the
/// low nibble is zero where `F` is a multiple of 16.
pub proof fn lemma_flag_bit(f: u8)
    ensures
        (f & 0x80 != 0) == (f >= 128),
        (f & 0x40 != 0) == (f % 128 >= 64),
        (f & 0x20 != 0) == (f % 64 >= 32),
        (f & 0x10 != 0) == (f % 32 >= 16),
        (f & 0x0F == 0) == (f % 16 == 0),
{
    assert(((f & 0x80 != 0) == (f >= 128)) && ((f & 0x40 != 0) == (f % 128 >= 64)) && ((f & 0x20
        != 0) == (f % 64 >= 32)) && ((f & 0x10 != 0) == (f % 32 >= 16)) && ((f & 0x0F == 0) == (f
        % 16 == 0))) by (bit_vector);
}

/// Setting or clearing the flag bit `m` adds or takes away `m` where the bit
/// changes, and leaves the flag bit `o` and the low nibble as they were.
pub proof fn lemma_set_bit(f: u8, m: u8, o: u8)
    requires
        m == 0x10 || m == 0x20 || m == 0x40 || m == 0x80,
        o == 0x10 || o == 0x20 || o == 0x40 || o == 0x80,
    ensures
        (f | m) & m != 0,
        (f & !m) & m == 0,
        f & m != 0 ==> (f | m) == f && (f & !m) == f - m,
        f & m == 0 ==> (f | m) == f + m && (f & !m) == f,
        o != m ==> ((f | m) & o) == f & o && ((f & !m) & o) == f & o,
        ((f | m) & 0x0F) == f & 0x0F,
        ((f & !m) & 0x0F) == f & 0x0F,
{
    assert((m == 0x10 || m == 0x20 || m == 0x40 || m == 0x80) ==> (f | m) & m != 0 && (f & !m) & m
        == 0 && (f & m != 0 ==> (f | m) == f && (f & !m) == f - m) && (f & m == 0 ==> (f | m) == f
        + m && (f & !m) == f) && ((f | m) & 0x0F) == f & 0x0F && ((f & !m) & 0x0F) == f & 0x0F)
        by (bit_vector);
    assert((m == 0x10 || m == 0x20 || m == 0x40 || m == 0x80) && (o == 0x10 || o == 0x20 || o
        == 0x40 || o == 0x80) && o != m ==> ((f | m) & o) == f & o && ((f & !m) & o) == f & o)
        by (bit_vector);
}

} // verus!
