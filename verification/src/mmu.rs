//! The memory decoder: owns every backing store and routes each access by
//! address range.

use crate::exit::VmExit;
use crate::gpu::{Gpu, GpuState};
use crate::registers::{high, low, pair, spec_high, spec_low, spec_pair};
use vstd::prelude::*;

verus! {

/// Size of the cartridge ROM window in bytes.
pub const ROM_LENGTH: usize = 32768;

/// Size of the work RAM and of the external RAM in bytes.
pub const RAM_LENGTH: usize = 8192;

/// Size of the high RAM in bytes.
pub const ZERO_PAGE_LENGTH: usize = 128;

/// Mathematical state of the address space.
pub struct MemoryState {
    /// The cartridge image, mapped from address 0.
    pub rom: Seq<u8>,
    /// The boot image, which overlays the first 256 bytes while locked in.
    pub bootrom: Seq<u8>,
    /// The boot image still overlays the cartridge.
    pub bootrom_lock: bool,
    /// Work RAM.
    pub ram: Seq<u8>,
    /// External (cartridge) RAM.
    pub mbc0_ram: Seq<u8>,
    /// High RAM.
    pub zero_page_ram: Seq<u8>,
    pub gpu: GpuState,
    pub interrupt_flags: u8,
}

impl MemoryState {
    /// Validity of the state: the RAM sizes and a valid pixel processing unit.
    pub open spec fn wf(self) -> bool {
        &&& self.ram.len() == RAM_LENGTH
        &&& self.mbc0_ram.len() == RAM_LENGTH
        &&& self.zero_page_ram.len() == ZERO_PAGE_LENGTH
        &&& self.gpu.wf()
    }

    /// The state at power-on with the given boot image: the overlay active,
    /// an all-zero cartridge and all RAM zero.
    pub open spec fn initial(bootrom: Seq<u8>) -> MemoryState {
        MemoryState {
            rom: Seq::new(ROM_LENGTH as nat, |i: int| 0u8),
            bootrom,
            bootrom_lock: true,
            ram: Seq::new(RAM_LENGTH as nat, |i: int| 0u8),
            mbc0_ram: Seq::new(RAM_LENGTH as nat, |i: int| 0u8),
            zero_page_ram: Seq::new(ZERO_PAGE_LENGTH as nat, |i: int| 0u8),
            gpu: GpuState::initial(),
            interrupt_flags: 0,
        }
    }

    /// What a read of the I/O register at `address` returns: 0 for the
    /// registers that ignore writes, the boot-lock state, and what the pixel
    /// processing unit has for its registers.
    pub open spec fn io_read(self, address: usize) -> Result<u8, VmExit> {
        if Self::io_stub(address) {
            Ok(0u8)
        } else if 0xFF40 <= address <= 0xFF4F {
            self.gpu.read_byte(address)
        } else if address == 0xFF50 {
            Ok(if self.bootrom_lock { 0u8 } else { 1u8 })
        } else if 0xFF68 <= address <= 0xFF6B {
            self.gpu.read_byte(address)
        } else {
            Err(VmExit::OobRead)
        }
    }

    /// What a read of `address` returns: the byte of the one backing store
    /// that answers the address, or `OobRead` where none does.
    pub open spec fn read_byte(self, address: u16) -> Result<u8, VmExit> {
        let a = address as int;
        if a <= 0x7FFF {
            if self.bootrom_lock && a <= 0xFF {
                if a < self.bootrom.len() {
                    Ok(self.bootrom[a])
                } else {
                    Err(VmExit::OobRead)
                }
            } else if a < self.rom.len() {
                Ok(self.rom[a])
            } else {
                Err(VmExit::OobRead)
            }
        } else if a <= 0x9FFF {
            self.gpu.read_byte(address as usize)
        } else if a <= 0xBFFF {
            Ok(self.mbc0_ram[a - 0xA000])
        } else if a <= 0xDFFF {
            Ok(self.ram[a - 0xC000])
        } else if a <= 0xFDFF {
            Ok(self.ram[a - 0xE000])
        } else if a <= 0xFE9F {
            self.gpu.read_byte(address as usize)
        } else if a <= 0xFEFF {
            Err(VmExit::OobRead)
        } else if a <= 0xFF7F {
            self.io_read(address as usize)
        } else {
            Ok(self.zero_page_ram[a - 0xFF80])
        }
    }

    /// The little-endian word at `address` and `address + 1`.
    pub open spec fn read_word(self, address: u16) -> Result<u16, VmExit> {
        if address == 0xFFFF {
            Err(VmExit::OobRead)
        } else {
            match self.read_byte(address) {
                Err(e) => Err(e),
                Ok(lo) => match self.read_byte((address + 1) as u16) {
                    Err(e) => Err(e),
                    Ok(hi) => Ok(spec_pair(hi, lo)),
                },
            }
        }
    }

    /// I/O registers that accept any write, ignore it and read as 0:
    /// joypad, serial, timer modulo and the sound channels.
    pub open spec fn io_stub(address: usize) -> bool {
        ||| address == 0xFF00
        ||| address == 0xFF01
        ||| address == 0xFF02
        ||| address == 0xFF06
        ||| 0xFF10 <= address <= 0xFF14
        ||| address == 0xFF17
        ||| address == 0xFF19
        ||| address == 0xFF1A
        ||| address == 0xFF21
        ||| 0xFF23 <= address <= 0xFF26
        ||| address == 0xFF7F
    }

    /// Whether the I/O register at `address` accepts a write of `val`.
    pub open spec fn io_writable(address: usize, val: u8) -> bool {
        ||| Self::io_stub(address)
        ||| (0xFF40 <= address <= 0xFF4F && GpuState::accepts_write(address))
        ||| address == 0xFF50
        ||| (address == 0xFF0F && val <= 1)
    }

    /// Whether a write of `val` to `address` is accepted. This depends on
    /// nothing but the address and the value.
    pub open spec fn writable(address: u16, val: u8) -> bool {
        let a = address as int;
        if a <= 0x3FFF {
            true
        } else if a <= 0x7FFF {
            false
        } else if a <= 0x9FFF {
            true
        } else if a <= 0xBFFF {
            false
        } else if a <= 0xDFFF {
            true
        } else if a <= 0xFDFF {
            false
        } else if a <= 0xFEFF {
            true
        } else if a <= 0xFF7F {
            Self::io_writable(address as usize, val)
        } else {
            true
        }
    }

    /// The state after an accepted write of `val` to the I/O register at
    /// `address`.
    ///
    /// A write with bit 0 set to the boot-lock register switches the boot
    /// overlay out, for good.
    pub open spec fn io_stored(self, address: usize, val: u8) -> MemoryState {
        if 0xFF40 <= address <= 0xFF4F {
            MemoryState { gpu: self.gpu.stored(address, val), ..self }
        } else if address == 0xFF50 {
            if val % 2 == 1 && self.bootrom_lock {
                MemoryState { bootrom_lock: false, ..self }
            } else {
                self
            }
        } else if address == 0xFF0F {
            MemoryState { interrupt_flags: val, ..self }
        } else {
            self
        }
    }

    /// The state after an accepted write of `val` to `address`: video RAM,
    /// work RAM and high RAM store the value, the cartridge and the sprite
    /// table ignore it.
    pub open spec fn stored(self, address: u16, val: u8) -> MemoryState {
        let a = address as int;
        if 0x8000 <= a <= 0x9FFF {
            MemoryState { gpu: self.gpu.stored(address as usize, val), ..self }
        } else if 0xC000 <= a <= 0xDFFF {
            MemoryState { ram: self.ram.update(a - 0xC000, val), ..self }
        } else if 0xFF00 <= a <= 0xFF7F {
            self.io_stored(address as usize, val)
        } else if 0xFF80 <= a {
            MemoryState { zero_page_ram: self.zero_page_ram.update(a - 0xFF80, val), ..self }
        } else {
            self
        }
    }

    /// The state after a write to an I/O register, or the refusal.
    pub open spec fn io_write(self, address: usize, val: u8) -> Result<MemoryState, VmExit> {
        if Self::io_writable(address, val) {
            Ok(self.io_stored(address, val))
        } else {
            Err(VmExit::OobRead)
        }
    }

    /// The state after a write of `val` to `address`, or the refusal.
    pub open spec fn write_byte(self, address: u16, val: u8) -> Result<MemoryState, VmExit> {
        if Self::writable(address, val) {
            Ok(self.stored(address, val))
        } else {
            Err(VmExit::OobRead)
        }
    }

    /// The state after the low byte of `val` was written to `address` and
    /// its high byte to `address + 1`, or the refusal of either.
    pub open spec fn write_word(self, address: u16, val: u16) -> Result<MemoryState, VmExit> {
        if address == 0xFFFF {
            Err(VmExit::OobRead)
        } else {
            match self.write_byte(address, spec_low(val)) {
                Err(e) => Err(e),
                Ok(m) => m.write_byte((address + 1) as u16, spec_high(val)),
            }
        }
    }

    /// Whether a write to `address` is kept and read back: video RAM, work
    /// RAM and high RAM.
    pub open spec fn is_ram(address: u16) -> bool {
        ||| 0x8000 <= address <= 0x9FFF
        ||| 0xC000 <= address <= 0xDFFF
        ||| 0xFF80 <= address
    }
}

/// The memory decoder.
pub struct Mmu {
    /// The cartridge image, mapped from address 0.
    pub rom: Vec<u8>,
    /// The boot image, which overlays the first 256 bytes while locked in.
    pub bootrom: Vec<u8>,
    /// The boot image still overlays the cartridge.
    pub bootrom_lock: bool,
    /// Work RAM.
    pub ram: Vec<u8>,
    /// External (cartridge) RAM.
    pub mbc0_ram: Vec<u8>,
    /// High RAM.
    pub zero_page_ram: Vec<u8>,
    pub gpu: Gpu,
    pub interrupt_flags: u8,
}

impl View for Mmu {
    type V = MemoryState;

    open spec fn view(&self) -> MemoryState {
        MemoryState {
            rom: self.rom@,
            bootrom: self.bootrom@,
            bootrom_lock: self.bootrom_lock,
            ram: self.ram@,
            mbc0_ram: self.mbc0_ram@,
            zero_page_ram: self.zero_page_ram@,
            gpu: self.gpu@,
            interrupt_flags: self.interrupt_flags,
        }
    }
}

impl Mmu {
    /// Validity of the decoder, see [`MemoryState::wf`].
    pub open spec fn wf(&self) -> bool {
        self@.wf()
    }

    /// Whether the decoder is valid, see [`MemoryState::wf`].
    pub fn valid(&self) -> (b: bool)
        ensures
            b == self.wf(),
    {
        self.ram.len() == RAM_LENGTH && self.mbc0_ram.len() == RAM_LENGTH
            && self.zero_page_ram.len() == ZERO_PAGE_LENGTH && self.gpu.valid()
    }

    /// A decoder at power-on with the given boot image.
    pub fn new(bootrom: Vec<u8>) -> (mmu: Mmu)
        ensures
            mmu@ == MemoryState::initial(bootrom@),
            mmu.wf(),
    {
        let mmu = Mmu {
            bootrom,
            bootrom_lock: true,
            rom: vec![0u8; ROM_LENGTH],
            ram: vec![0u8; RAM_LENGTH],
            mbc0_ram: vec![0u8; RAM_LENGTH],
            zero_page_ram: vec![0u8; ZERO_PAGE_LENGTH],
            gpu: Gpu::new(),
            interrupt_flags: 0,
        };
        assert(mmu@.rom =~= MemoryState::initial(bootrom@).rom);
        assert(mmu@.ram =~= MemoryState::initial(bootrom@).ram);
        assert(mmu@.mbc0_ram =~= MemoryState::initial(bootrom@).mbc0_ram);
        assert(mmu@.zero_page_ram =~= MemoryState::initial(bootrom@).zero_page_ram);
        mmu
    }

    /// Replaces the cartridge image.
    pub fn load_rom(&mut self, rom: Vec<u8>)
        ensures
            final(self)@ == (MemoryState { rom: rom@, ..old(self)@ }),
            old(self).wf() ==> final(self).wf(),
    {
        self.rom = rom;
    }

    /// The cartridge type byte of the header, at offset 0x147, if the image
    /// reaches that far.
    pub fn cartridge_type(&self) -> (t: Option<u8>)
        ensures
            t == (if 0x147 < self@.rom.len() {
                Some(self@.rom[0x147])
            } else {
                None
            }),
    {
        if 0x147 < self.rom.len() {
            Some(self.rom[0x147])
        } else {
            None
        }
    }

    /// Reads the byte at `address` from the backing store that answers it.
    ///
    /// The first 256 bytes come from the boot image while it is locked in,
    /// the rest of the low half from the cartridge. Addresses past the end
    /// of either image, the sprite table, the unusable range and I/O
    /// registers without a read handler are refused with `OobRead`.
    pub fn read_byte(&self, address: u16) -> (res: Result<u8, VmExit>)
        requires
            self.wf(),
        ensures
            res == self@.read_byte(address),
    {
        let a = address as usize;
        if a <= 0x7FFF {
            if self.bootrom_lock && a <= 0xFF {
                if a < self.bootrom.len() {
                    Ok(self.bootrom[a])
                } else {
                    Err(VmExit::OobRead)
                }
            } else if a < self.rom.len() {
                Ok(self.rom[a])
            } else {
                Err(VmExit::OobRead)
            }
        } else if a <= 0x9FFF {
            self.gpu.read_byte(a)
        } else if a <= 0xBFFF {
            Ok(self.mbc0_ram[a - 0xA000])
        } else if a <= 0xDFFF {
            Ok(self.ram[a - 0xC000])
        } else if a <= 0xFDFF {
            Ok(self.ram[a - 0xE000])
        } else if a <= 0xFE9F {
            self.gpu.read_byte(a)
        } else if a <= 0xFEFF {
            Err(VmExit::OobRead)
        } else if a <= 0xFF7F {
            self.handle_io_read(a)
        } else {
            Ok(self.zero_page_ram[a - 0xFF80])
        }
    }

    /// Reads the little-endian word at `address` and `address + 1`.
    ///
    /// A word that starts at the last address is refused with `OobRead`.
    pub fn read_word(&self, address: u16) -> (res: Result<u16, VmExit>)
        requires
            self.wf(),
        ensures
            res == self@.read_word(address),
    {
        if address == 0xFFFF {
            return Err(VmExit::OobRead);
        }
        let lo = match self.read_byte(address) {
            Ok(b) => b,
            Err(e) => { return Err(e); },
        };
        let hi = match self.read_byte(address + 1) {
            Ok(b) => b,
            Err(e) => { return Err(e); },
        };
        Ok(pair(hi, lo))
    }

    /// Whether a write of `val` to `address` is accepted.
    pub fn writable(address: u16, val: u8) -> (b: bool)
        ensures
            b == MemoryState::writable(address, val),
    {
        let a = address as usize;
        if a <= 0x3FFF {
            true
        } else if a <= 0x7FFF {
            false
        } else if a <= 0x9FFF {
            true
        } else if a <= 0xBFFF {
            false
        } else if a <= 0xDFFF {
            true
        } else if a <= 0xFDFF {
            false
        } else if a <= 0xFEFF {
            true
        } else if a <= 0xFF7F {
            Self::io_writable(a, val)
        } else {
            true
        }
    }

    /// Whether the I/O register at `address` ignores writes and reads as 0.
    fn io_stub(address: usize) -> (b: bool)
        ensures
            b == MemoryState::io_stub(address),
    {
        address == 0xFF00 || address == 0xFF01 || address == 0xFF02 || address == 0xFF06 || (0xFF10
            <= address && address <= 0xFF14) || address == 0xFF17 || address == 0xFF19 || address
            == 0xFF1A || address == 0xFF21 || (0xFF23 <= address && address <= 0xFF26) || address
            == 0xFF7F
    }

    /// Whether the I/O register at `address` accepts a write of `val`.
    fn io_writable(address: usize, val: u8) -> (b: bool)
        ensures
            b == MemoryState::io_writable(address, val),
    {
        Self::io_stub(address) || (0xFF40 <= address && address <= 0xFF4F && Gpu::accepts_write(
            address,
        )) || address == 0xFF50 || (address == 0xFF0F && val <= 1)
    }

    /// Writes `val` to `address`.
    ///
    /// Video RAM, work RAM and high RAM store the value, and the I/O window
    /// handles it by register. Writes to the first half of the cartridge
    /// range, the sprite table and the unusable range are accepted and
    /// ignored. The rest of the cartridge range, external RAM and the echo
    /// of work RAM are refused with `OobRead`, and nothing changes.
    pub fn write_byte(&mut self, address: u16, val: u8) -> (res: Result<(), VmExit>)
        requires
            old(self).wf(),
        ensures
            final(self).wf(),
            match old(self)@.write_byte(address, val) {
                Ok(m) => res is Ok && final(self)@ == m,
                Err(e) => res == Err::<(), VmExit>(e) && final(self)@ == old(self)@,
            },
            final(self)@.gpu.same_timing(old(self)@.gpu),
            final(self)@.gpu.same_handoff(old(self)@.gpu),
    {
        let a = address as usize;
        if a <= 0x3FFF {
            Ok(())
        } else if a <= 0x7FFF {
            Err(VmExit::OobRead)
        } else if a <= 0x9FFF {
            self.gpu.write_byte(a, val)
        } else if a <= 0xBFFF {
            Err(VmExit::OobRead)
        } else if a <= 0xDFFF {
            self.ram[a - 0xC000] = val;
            Ok(())
        } else if a <= 0xFDFF {
            Err(VmExit::OobRead)
        } else if a <= 0xFEFF {
            Ok(())
        } else if a <= 0xFF7F {
            self.handle_io_write(a, val)
        } else {
            self.zero_page_ram[a - 0xFF80] = val;
            Ok(())
        }
    }

    /// Writes the low byte of `val` to `address` and its high byte to
    /// `address + 1`.
    ///
    /// Where either write is refused, or the word starts at the last
    /// address, the result is `OobRead` and nothing changes.
    pub fn write_word(&mut self, address: u16, val: u16) -> (res: Result<(), VmExit>)
        requires
            old(self).wf(),
        ensures
            final(self).wf(),
            match old(self)@.write_word(address, val) {
                Ok(m) => res is Ok && final(self)@ == m,
                Err(e) => res == Err::<(), VmExit>(e) && final(self)@ == old(self)@,
            },
            final(self)@.gpu.same_timing(old(self)@.gpu),
            final(self)@.gpu.same_handoff(old(self)@.gpu),
    {
        if address == 0xFFFF || !Self::writable(address, low(val)) || !Self::writable(
            address + 1,
            high(val),
        ) {
            return Err(VmExit::OobRead);
        }
        let first = self.write_byte(address, low(val));
        let second = self.write_byte(address + 1, high(val));
        Ok(())
    }

    /// A mutable reference to the byte of the cartridge image at `address`,
    /// or `OobRead` past the end of the image.
    ///
    /// This reaches the cartridge store alone, whatever is mapped at the
    /// address: instructions go through [`Mmu::read_byte`] and
    /// [`Mmu::write_byte`] instead.
    pub fn get_mut_ref_byte(&mut self, address: u16) -> (res: Result<&mut u8, VmExit>)
        ensures
            match res {
                Ok(byte) => address < old(self)@.rom.len() && *byte == old(self)@.rom[address as int]
                    && final(self)@ == (MemoryState {
                    rom: old(self)@.rom.update(address as int, *final(byte)),
                    ..old(self)@
                }),
                Err(e) => e == VmExit::OobRead && address >= old(self)@.rom.len() && final(self)@
                    == old(self)@,
            },
    {
        let a = address as usize;
        if a < self.rom.len() {
            Ok(&mut self.rom[a])
        } else {
            Err(VmExit::OobRead)
        }
    }

    /// Reads the I/O register at `address`: joypad, serial, timer and sound
    /// registers read as 0, the boot-lock register as 0 while the boot image
    /// is locked in and as 1 after, and the LCD registers as the pixel
    /// processing unit has them. Everything else is refused with `OobRead`.
    pub fn handle_io_read(&self, address: usize) -> (res: Result<u8, VmExit>)
        requires
            self.wf(),
        ensures
            res == self@.io_read(address),
    {
        if Self::io_stub(address) {
            Ok(0)
        } else if 0xFF40 <= address && address <= 0xFF4F {
            self.gpu.read_byte(address)
        } else if address == 0xFF50 {
            Ok(if self.bootrom_lock { 0 } else { 1 })
        } else if 0xFF68 <= address && address <= 0xFF6B {
            self.gpu.read_byte(address)
        } else {
            Err(VmExit::OobRead)
        }
    }

    /// Writes the I/O register at `address`.
    ///
    /// Joypad, serial, timer and sound registers accept and ignore the
    /// value. The LCD registers go to the pixel processing unit. A write
    /// with bit 0 set to the boot-lock register switches the boot overlay
    /// out; no write switches it back in. The interrupt flag register
    /// stores 0 or 1. Everything else is refused with `OobRead`.
    pub fn handle_io_write(&mut self, address: usize, val: u8) -> (res: Result<(), VmExit>)
        requires
            old(self).wf(),
        ensures
            final(self).wf(),
            match old(self)@.io_write(address, val) {
                Ok(m) => res is Ok && final(self)@ == m,
                Err(e) => res == Err::<(), VmExit>(e) && final(self)@ == old(self)@,
            },
            final(self)@.gpu.same_timing(old(self)@.gpu),
            final(self)@.gpu.same_handoff(old(self)@.gpu),
    {
        if !Self::io_writable(address, val) {
            return Err(VmExit::OobRead);
        }
        if 0xFF40 <= address && address <= 0xFF4F {
            self.gpu.write_byte(address, val)
        } else if address == 0xFF50 {
            assert((val & 0x01 == 0x01) == (val % 2 == 1)) by (bit_vector);
            if val & 0x01 == 0x01 && self.bootrom_lock {
                self.bootrom_lock = false;
            }
            Ok(())
        } else if address == 0xFF0F {
            self.interrupt_flags = val;
            Ok(())
        } else {
            Ok(())
        }
    }
}


} // verus!
