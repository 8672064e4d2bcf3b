//! Laws of the machine, proved over its mathematical model.

use crate::exit::VmExit;
use crate::gpu::{FrameEvent, GpuMode, GpuState};
use crate::machine::{MachineState, Operand};
use crate::mmu::MemoryState;
use crate::registers::{flag_bits, spec_high, spec_low, spec_pair, CpuFlag, Registers};
use vstd::prelude::*;

verus! {

/// Registers whose `F` was built from four flags are valid and hold exactly
/// those flags.
pub proof fn lemma_flag_bits(r: Registers, z: bool, n: bool, h: bool, c: bool)
    ensures
        r.with_flags(z, n, h, c).wf(),
        r.with_flags(z, n, h, c).spec_flag(CpuFlag::Z) == z,
        r.with_flags(z, n, h, c).spec_flag(CpuFlag::N) == n,
        r.with_flags(z, n, h, c).spec_flag(CpuFlag::H) == h,
        r.with_flags(z, n, h, c).spec_flag(CpuFlag::C) == c,
        r.with_flags(z, n, h, c).f == flag_bits(z, n, h, c),
{
}

/// A well-formed flags byte is determined by its four flags.
pub proof fn lemma_flags_determine(r: Registers)
    requires
        r.wf(),
    ensures
        r == r.with_flags(
            r.spec_flag(CpuFlag::Z),
            r.spec_flag(CpuFlag::N),
            r.spec_flag(CpuFlag::H),
            r.spec_flag(CpuFlag::C),
        ),
{
    let f = r.f;
    assert(f % 16 == 0 ==> f == (if f >= 128 { 0x80u8 } else { 0 }) + (if f % 128 >= 64 {
        0x40u8
    } else {
        0
    }) + (if f % 64 >= 32 { 0x20u8 } else { 0 }) + (if f % 32 >= 16 { 0x10u8 } else { 0 }))
        by (bit_vector);
}

/// An 8-bit increment undoes an 8-bit decrement and the other way round,
/// for every value and whatever the flags are.
pub proof fn lemma_inc_dec_inverse(r: Registers, s: Registers, v: u8)
    ensures
        s.alu_inc8(r.alu_dec8(v).1).1 == v,
        s.alu_dec8(r.alu_inc8(v).1).1 == v,
{
}

/// After an 8-bit increment the Zero flag is set iff the operand was 255;
/// after an 8-bit decrement it is set iff the operand was 1.
pub proof fn lemma_inc_dec_zero(r: Registers, v: u8)
    ensures
        r.alu_inc8(v).0.spec_flag(CpuFlag::Z) == (v == 255),
        r.alu_dec8(v).0.spec_flag(CpuFlag::Z) == (v == 1),
{
}

/// An increment or decrement never touches the Carry flag, clears or sets
/// Subtract, and never clears Half-carry.
pub proof fn lemma_inc_dec_flags(r: Registers, v: u8)
    ensures
        r.alu_inc8(v).0.spec_flag(CpuFlag::C) == r.spec_flag(CpuFlag::C),
        r.alu_dec8(v).0.spec_flag(CpuFlag::C) == r.spec_flag(CpuFlag::C),
        !r.alu_inc8(v).0.spec_flag(CpuFlag::N),
        r.alu_dec8(v).0.spec_flag(CpuFlag::N),
        r.spec_flag(CpuFlag::H) ==> r.alu_inc8(v).0.spec_flag(CpuFlag::H) && r.alu_dec8(
            v,
        ).0.spec_flag(CpuFlag::H),
{
}

/// Adding `b` to `A` and then subtracting `b` restores `A`, for every `A`
/// and `b` and whatever the flags are.
pub proof fn lemma_add_sub_round_trip(r: Registers, b: u8)
    ensures
        r.alu_add(b).alu_sub(b).a == r.a,
        r.alu_sub(b).alu_add(b).a == r.a,
{
}

/// A compare sets the flags of a subtract and leaves every register but `F`.
pub proof fn lemma_cp_is_sub_without_result(r: Registers, v: u8)
    ensures
        r.alu_cp(v).f == r.alu_sub(v).f,
        r.alu_cp(v) == (Registers { f: r.alu_cp(v).f, ..r }),
{
}

/// Every arithmetic and logic operation leaves the low nibble of `F` zero.
pub proof fn lemma_alu_keeps_flags_valid(r: Registers, op: u8, v: u8, w: u16)
    ensures
        r.alu(op, v).wf(),
        r.alu_inc8(v).0.wf(),
        r.alu_dec8(v).0.wf(),
        r.alu_add_hl(w).wf(),
        r.alu_rl(v).0.wf(),
        r.alu_swap(v).0.wf(),
        r.alu_srl(v).0.wf(),
        r.spec_set_af(w).wf(),
{
}

/// A register pair that was set reads back as the value it was set to.
pub proof fn lemma_pair_round_trip(r: Registers, w: u16)
    ensures
        spec_pair(spec_high(w), spec_low(w)) == w,
        r.spec_set_bc(w).spec_bc() == w,
        r.spec_set_de(w).spec_de() == w,
        r.spec_set_hl(w).spec_hl() == w,
        r.spec_set_af(w).spec_af() == w - w % 16,
{
}

/// A word pushed on a stack that lies in RAM is the word that the next pop
/// returns, and the pop leaves every register, `SP` included, as it was
/// before the push.
pub proof fn lemma_push_pop(m: MachineState, x: u16)
    requires
        m.wf(),
        m.regs.sp >= 2,
        MemoryState::is_ram((m.regs.sp - 2) as u16),
        MemoryState::is_ram((m.regs.sp - 1) as u16),
    ensures
        m.push16(x) is Ok,
        m.push16(x).unwrap().regs.sp == m.regs.sp - 2,
        m.push16(x).unwrap().pop16() is Ok,
        m.push16(x).unwrap().pop16().unwrap().1 == x,
        m.push16(x).unwrap().pop16().unwrap().0.regs == m.regs,
        m.push16(x).unwrap().pop16().unwrap().0 == m.push16(x).unwrap().with_regs(m.regs),
{
}

/// A byte written to RAM is the byte read back, and every other address
/// outside the I/O window reads as before.
pub proof fn lemma_ram_write_read(m: MemoryState, address: u16, val: u8, other: u16)
    requires
        m.wf(),
        MemoryState::is_ram(address),
    ensures
        m.write_byte(address, val) is Ok,
        m.write_byte(address, val).unwrap().read_byte(address) == Ok::<u8, VmExit>(val),
        other != address && !(0xE000 <= other <= 0xFDFF && other - 0x2000 == address)
            ==> m.write_byte(address, val).unwrap().read_byte(other) == m.read_byte(other),
        m.write_byte(address, val).unwrap().wf(),
{
}

/// While the boot image is locked in, the first 256 addresses read from it;
/// once it is switched out they read from the cartridge.
pub proof fn lemma_boot_overlay(m: MemoryState, address: u16)
    requires
        address <= 0xFF,
    ensures
        m.bootrom_lock && address < m.bootrom.len() ==> m.read_byte(address) == Ok::<u8, VmExit>(
            m.bootrom[address as int],
        ),
        !m.bootrom_lock && address < m.rom.len() ==> m.read_byte(address) == Ok::<u8, VmExit>(
            m.rom[address as int],
        ),
{
}

/// A write with bit 0 set to the boot-lock register switches the boot
/// overlay out and changes nothing else, and a second such write changes
/// nothing at all.
pub proof fn lemma_boot_lock_idempotent(m: MemoryState, val: u8, again: u8)
    requires
        val % 2 == 1,
        again % 2 == 1,
    ensures
        m.write_byte(0xFF50, val) == Ok::<MemoryState, VmExit>(
            MemoryState { bootrom_lock: false, ..m },
        ),
        m.write_byte(0xFF50, val).unwrap().write_byte(0xFF50, again) == m.write_byte(0xFF50, val),
{
}

/// No write switches the boot overlay back in: once it is out, it is out
/// after every write, accepted or not, to every address.
pub proof fn lemma_boot_lock_irreversible(m: MemoryState, address: u16, val: u8)
    requires
        !m.bootrom_lock,
    ensures
        m.write_byte(address, val) matches Ok(after) ==> !after.bootrom_lock,
        m.write_word(address, val as u16) matches Ok(after) ==> !after.bootrom_lock,
{
}

/// Every refusal of the memory decoder is `OobRead`.
pub proof fn lemma_memory_refusals(m: MemoryState, address: u16, val: u8, word: u16)
    ensures
        m.read_byte(address) matches Err(e) ==> e == VmExit::OobRead,
        m.read_word(address) matches Err(e) ==> e == VmExit::OobRead,
        m.write_byte(address, val) matches Err(e) ==> e == VmExit::OobRead,
        m.write_word(address, word) matches Err(e) ==> e == VmExit::OobRead,
{
}

/// One scanline: from the start of an OAM scan, 80, 172 and 204 ticks bring
/// the unit to the start of the OAM scan of the next scanline, with no frame
/// event on the way, as long as that scanline is not the one that ends the
/// frame.
pub proof fn lemma_scanline(g: GpuState)
    requires
        g.wf(),
        g.mode == GpuMode::OAMAccess,
        g.modeclock == 0,
        g.line < 142,
        !g.awaiting,
    ensures
        ({
            let a = g.step(80);
            let b = a.0.step(172);
            let c = b.0.step(204);
            &&& a.1 == FrameEvent::Running && b.1 == FrameEvent::Running && c.1
                == FrameEvent::Running
            &&& c.0.mode == GpuMode::OAMAccess
            &&& c.0.modeclock == 0
            &&& c.0.line == g.line + 1
            &&& c.0.frame == g.render_line(g.line).frame
        }),
{
}

/// The state after the ticks of one scanline were fed as 80, 172 and 204.
pub open spec fn scanline(g: GpuState) -> GpuState {
    g.step(80).0.step(172).0.step(204).0
}

/// The number of frames published while the ticks of one scanline were fed.
pub open spec fn scanline_published(g: GpuState) -> nat {
    let a = g.step(80);
    let b = a.0.step(172);
    let c = b.0.step(204);
    (if a.1 == FrameEvent::Published { 1nat } else { 0 }) + (if b.1 == FrameEvent::Published {
        1nat
    } else {
        0
    }) + (if c.1 == FrameEvent::Published { 1nat } else { 0 })
}

/// The state after the ticks of `n` scanlines were fed.
pub open spec fn scanlines(g: GpuState, n: nat) -> GpuState
    decreases n,
{
    if n == 0 {
        g
    } else {
        scanline(scanlines(g, (n - 1) as nat))
    }
}

/// The number of frames published while the ticks of `n` scanlines were
/// fed.
pub open spec fn scanlines_published(g: GpuState, n: nat) -> nat
    decreases n,
{
    if n == 0 {
        0
    } else {
        scanlines_published(g, (n - 1) as nat) + scanline_published(scanlines(g, (n - 1) as nat))
    }
}

/// The unit at power-on is valid and stands at the start of the OAM scan of
/// scanline 0, with no consumer.
pub proof fn lemma_reset_state()
    ensures
        GpuState::initial().wf(),
        GpuState::initial().mode == GpuMode::OAMAccess,
        GpuState::initial().modeclock == 0,
        GpuState::initial().line == 0,
        !GpuState::initial().attached,
        !GpuState::initial().blocked(),
        GpuState::initial().sync().wf(),
{
}

/// The visible scanlines but the last: from the start of a frame, the ticks
/// of `n` scanlines, `n` at most 142, bring the unit to the start of the OAM
/// scan of scanline `n` and publish nothing.
pub proof fn lemma_scanlines_quiet(g: GpuState, n: nat)
    requires
        g.wf(),
        g.mode == GpuMode::OAMAccess,
        g.modeclock == 0,
        g.line == 0,
        !g.awaiting,
        n <= 142,
    ensures
        scanlines(g, n).wf(),
        scanlines(g, n).mode == GpuMode::OAMAccess,
        scanlines(g, n).modeclock == 0,
        scanlines(g, n).line == n,
        scanlines(g, n).same_handoff(g),
        scanlines_published(g, n) == 0,
    decreases n,
{
    if n > 0 {
        lemma_scanlines_quiet(g, (n - 1) as nat);
        let before = scanlines(g, (n - 1) as nat);
        lemma_scanline(before);
        lemma_one_frame_in_flight(before, 80);
        lemma_one_frame_in_flight(before.step(80).0, 172);
        lemma_one_frame_in_flight(before.step(80).0.step(172).0, 204);
    }
}

/// One frame per 144 scanlines: with a consumer that has drawn the previous
/// frame, the ticks of 144 scanlines fed from the start of a frame publish
/// exactly one frame, at the end of the 143rd scanline, and bring the unit
/// to scanline 144.
pub proof fn lemma_one_frame_per_144_scanlines(g: GpuState)
    requires
        g.wf(),
        g.mode == GpuMode::OAMAccess,
        g.modeclock == 0,
        g.line == 0,
        g.attached,
        g.drawn,
        !g.awaiting,
    ensures
        scanlines_published(g, 142) == 0,
        scanlines_published(g, 143) == 1,
        scanlines_published(g, 144) == 1,
        scanlines(g, 143).line == 143,
        scanlines(g, 143).in_flight == Some(scanlines(g, 143).frame),
        scanlines(g, 144).line == 144,
        scanlines(g, 144).mode == GpuMode::VBlank,
{
    lemma_scanlines_quiet(g, 142);
    let s142 = scanlines(g, 142);
    assert(scanlines(g, 143) == scanline(s142));
    lemma_one_frame_in_flight(s142, 80);
    lemma_one_frame_in_flight(s142.step(80).0, 172);
    lemma_frame_end(s142.step(80).0.step(172).0, 204);
    let s143 = scanlines(g, 143);
    assert(scanlines_published(g, 143) == scanlines_published(g, 142) + scanline_published(s142));
    assert(scanlines(g, 144) == scanline(s143));
    assert(scanlines_published(g, 144) == scanlines_published(g, 143) + scanline_published(s143));
}

/// The end of a frame: the horizontal blank of scanline 142 ends in vertical
/// blank at scanline 143, and the frame is dropped without a consumer,
/// published if the consumer has drawn the previous one, and held back
/// otherwise.
pub proof fn lemma_frame_end(g: GpuState, ticks: usize)
    requires
        g.wf(),
        g.mode == GpuMode::HBlank,
        g.line == 142,
        g.modeclock + ticks >= 204,
        !g.awaiting,
    ensures
        g.step(ticks).0.mode == GpuMode::VBlank,
        g.step(ticks).0.line == 143,
        g.step(ticks).0.modeclock == 0,
        g.step(ticks).0.frame == g.frame,
        g.step(ticks).1 == (if !g.attached {
            FrameEvent::Dropped
        } else if g.drawn {
            FrameEvent::Published
        } else {
            FrameEvent::Blocked
        }),
        g.step(ticks).1 == FrameEvent::Published ==> g.step(ticks).0.in_flight == Some(g.frame)
            && !g.step(ticks).0.drawn,
        g.step(ticks).1 == FrameEvent::Blocked ==> g.step(ticks).0.blocked(),
{
}

/// A frame is completed by no step but the one that ends the horizontal
/// blank of scanline 142.
pub proof fn lemma_frame_event_only_at_frame_end(g: GpuState, ticks: usize)
    requires
        g.wf(),
        !g.awaiting,
        g.step(ticks).1 != FrameEvent::Running,
    ensures
        g.mode == GpuMode::HBlank,
        g.line == 142,
        g.modeclock + ticks >= 204,
{
}

/// At most one frame is in flight: a valid unit stays valid over every
/// step, so a frame is only placed in the slot while the slot is empty, and
/// a frame in the slot is never replaced before the consumer acknowledges.
pub proof fn lemma_one_frame_in_flight(g: GpuState, ticks: usize)
    requires
        g.wf(),
    ensures
        g.step(ticks).0.wf(),
        g.in_flight is Some ==> g.step(ticks).0.in_flight == g.in_flight,
        g.step(ticks).1 == FrameEvent::Published ==> g.drawn && g.in_flight is None,
        g.acknowledge().wf(),
        g.sync().wf(),
{
}

/// A blocked unit stands still until the consumer acknowledges, and then
/// publishes the frame that waited.
pub proof fn lemma_blocked_until_acknowledged(g: GpuState, ticks: usize)
    requires
        g.wf(),
        g.blocked(),
    ensures
        g.step(ticks) == (g, FrameEvent::Blocked),
        g.acknowledge().step(ticks).1 == FrameEvent::Published,
        g.acknowledge().step(ticks).0.in_flight == Some(g.frame),
{
}

/// Every step that completes no frame brings the end of the frame nearer,
/// so a run ends.
pub proof fn lemma_frame_progress(g: GpuState, ticks: usize)
    requires
        g.wf(),
        ticks >= 1,
        g.step(ticks).1 == FrameEvent::Running,
    ensures
        g.step(ticks).0.ticks_left() < g.ticks_left(),
{
}

/// A machine whose pixel processing unit is blocked stands still, and an
/// instruction that ends with an exit leaves the machine as it was.
pub proof fn lemma_step_atomic(m: MachineState)
    ensures
        m.memory.gpu.blocked() ==> m.step() == (m, Ok::<FrameEvent, VmExit>(FrameEvent::Blocked)),
        m.step().1 is Err ==> m.step().0 == m,
{
}

/// What every completed instruction keeps: the validity of the machine, a
/// cost of one to six machine cycles, the timing and the hand-off of the
/// pixel processing unit, and a boot overlay that is out once it is out.
pub open spec fn kept(m: MachineState, outcome: Result<(MachineState, u8), VmExit>) -> bool {
    outcome matches Ok((after, cycles)) ==> {
        &&& kept_state(m, after)
        &&& 1 <= cycles <= 6
    }
}

/// What every change of state within an instruction keeps.
pub open spec fn kept_state(m: MachineState, after: MachineState) -> bool {
    &&& after.wf()
    &&& after.memory.gpu.same_timing(m.memory.gpu)
    &&& after.memory.gpu.same_handoff(m.memory.gpu)
    &&& (after.memory.bootrom_lock ==> m.memory.bootrom_lock)
}

/// What every accepted write keeps.
pub open spec fn kept_memory(m: MemoryState, after: MemoryState) -> bool {
    &&& after.wf()
    &&& after.gpu.same_timing(m.gpu)
    &&& after.gpu.same_handoff(m.gpu)
    &&& (after.bootrom_lock ==> m.bootrom_lock)
}

/// An accepted write of a byte keeps what [`kept_memory`] names.
proof fn lemma_kept_byte(m: MemoryState, address: u16, val: u8)
    requires
        m.wf(),
    ensures
        m.write_byte(address, val) matches Ok(after) ==> kept_memory(m, after),
{
}

/// An accepted write of a word keeps what [`kept_memory`] names.
proof fn lemma_kept_word(m: MemoryState, address: u16, word: u16)
    requires
        m.wf(),
    ensures
        m.write_word(address, word) matches Ok(after) ==> kept_memory(m, after),
{
    if address != 0xFFFF {
        lemma_kept_byte(m, address, spec_low(word));
        if let Ok(first) = m.write_byte(address, spec_low(word)) {
            lemma_kept_byte(first, (address + 1) as u16, spec_high(word));
        }
    }
}

/// Writes, stores, pushes and pops keep what [`kept_state`] names, and
/// leave `PC` alone.
proof fn lemma_kept_memory(
    m: MachineState,
    address: u16,
    val: u8,
    word: u16,
    loc: Operand,
)
    requires
        m.wf(),
    ensures
        m.memory.write_byte(address, val) matches Ok(memory) ==> kept_state(
            m,
            MachineState { memory, ..m },
        ),
        m.memory.write_word(address, word) matches Ok(memory) ==> kept_state(
            m,
            MachineState { memory, ..m },
        ),
        m.store(loc, val) matches Ok(after) ==> kept_state(m, after) && after.regs.f == m.regs.f
            && after.regs.pc == m.regs.pc,
        m.push16(word) matches Ok(after) ==> kept_state(m, after) && after.regs.pc == m.regs.pc,
        m.pop16() matches Ok((after, _)) ==> kept_state(m, after) && after.regs.pc == m.regs.pc,
{
    lemma_kept_byte(m.memory, address, val);
    lemma_kept_word(m.memory, address, word);
    lemma_kept_byte(m.memory, m.regs.spec_hl(), val);
    if m.regs.sp >= 2 {
        lemma_kept_word(m.memory, (m.regs.sp - 2) as u16, word);
    }
}

/// [`kept`] for opcodes 0x00 to 0x3F with `z = 0`.
proof fn lemma_kept_misc(m: MachineState, y: u8)
    requires
        m.wf(),
        y < 8,
    ensures
        kept(m, m.exec_misc(y)),
{
    reveal(MachineState::exec_misc);
}

/// [`kept`] for opcodes 0x00 to 0x3F with `z = 2`.
proof fn lemma_kept_indirect(m: MachineState, y: u8)
    requires
        m.wf(),
        y < 8,
    ensures
        kept(m, m.exec_indirect(y)),
{
    reveal(MachineState::exec_indirect);
    lemma_kept_byte(m.memory, m.regs.spec_bc(), m.regs.a);
    lemma_kept_byte(m.memory, m.regs.spec_de(), m.regs.a);
    lemma_kept_byte(m.memory, m.regs.spec_hl(), m.regs.a);
}

/// [`kept`] for opcodes 0x00 to 0x3F with `z = 4` or `z = 5`.
proof fn lemma_kept_inc_dec(m: MachineState, y: u8, z: u8)
    requires
        m.wf(),
        y < 8,
        z == 4 || z == 5,
    ensures
        kept(m, m.exec_inc_dec(y, z)),
{
    reveal(MachineState::exec_inc_dec);
    let loc = Operand::spec_from_index(y);
    if let Ok(val) = m.load(loc) {
        lemma_alu_keeps_flags_valid(m.regs, 0, val, 0);
        let (regs, res) = if z == 4 {
            m.regs.alu_inc8(val)
        } else {
            m.regs.alu_dec8(val)
        };
        lemma_kept_memory(m.with_regs(regs), 0, res, 0, loc);
    }
}

/// [`kept`] for opcodes 0x00 to 0x3F with `z = 7`.
proof fn lemma_kept_accumulator(m: MachineState, y: u8)
    requires
        m.wf(),
        y < 8,
    ensures
        kept(m, m.exec_accumulator(y)),
{
    reveal(MachineState::exec_accumulator);
}

/// [`kept`] for opcodes 0x00 to 0x3F.
proof fn lemma_kept_q0(m: MachineState, op: u8)
    requires
        m.wf(),
        op < 0x40,
    ensures
        kept(m, m.exec_q0(op)),
{
    reveal(MachineState::exec_q0);
    let y = (op / 8) as u8;
    let z = op % 8;
    if z == 0 {
        lemma_kept_misc(m, y);
    } else if z == 1 {
        lemma_alu_keeps_flags_valid(m.regs, 0, 0, m.pair(y / 2));
    } else if z == 2 {
        lemma_kept_indirect(m, y);
    } else if z == 3 {
    } else if z == 4 || z == 5 {
        lemma_kept_inc_dec(m, y, z);
    } else if z == 6 {
        if let Ok(val) = m.imm8() {
            lemma_kept_memory(m, 0, val, 0, Operand::spec_from_index(y));
        }
    } else {
        lemma_kept_accumulator(m, y);
    }
}

/// [`kept`] for opcodes 0x40 to 0xBF.
proof fn lemma_kept_ld_alu(m: MachineState, op: u8)
    requires
        m.wf(),
        0x40 <= op < 0xC0,
    ensures
        op < 0x80 ==> kept(m, m.exec_ld(op)),
        op >= 0x80 ==> kept(m, m.exec_alu(op)),
{
    reveal(MachineState::exec_ld);
    reveal(MachineState::exec_alu);
    let y = ((op / 8) % 8) as u8;
    let z = op % 8;
    if let Ok(val) = m.load(Operand::spec_from_index(z)) {
        lemma_kept_memory(m, 0, val, 0, Operand::spec_from_index(y));
        lemma_alu_keeps_flags_valid(m.regs, y, val, 0);
    }
}

/// A two-byte operation keeps what [`kept_state`] names, and leaves `PC`
/// alone.
proof fn lemma_kept_cb_group(m: MachineState, group: u8, loc: Operand)
    requires
        m.wf(),
    ensures
        m.exec_cb_group(group, loc) matches Ok(after) ==> kept_state(m, after) && after.regs.pc
            == m.regs.pc,
{
    reveal(MachineState::exec_cb_group);
    if let Ok(val) = m.load(loc) {
        lemma_alu_keeps_flags_valid(m.regs, 0, val, 0);
        if group == 2 {
            lemma_kept_memory(m.with_regs(m.regs.alu_rl(val).0), 0, m.regs.alu_rl(val).1, 0, loc);
        } else if group == 6 {
            lemma_kept_memory(
                m.with_regs(m.regs.alu_swap(val).0),
                0,
                m.regs.alu_swap(val).1,
                0,
                loc,
            );
        } else if group == 7 {
            lemma_kept_memory(m.with_regs(m.regs.alu_srl(val).0), 0, m.regs.alu_srl(val).1, 0, loc);
        } else if group == 15 {
            lemma_flag_bit_kept(m.regs, val);
        }
    }
}

/// A test of bit 7 keeps the register file valid and leaves `PC` alone.
proof fn lemma_flag_bit_kept(r: Registers, val: u8)
    requires
        r.wf(),
    ensures
        r.alu_bit(val, 7).wf(),
        r.alu_bit(val, 7).pc == r.pc,
{
}

/// [`kept`] for the two-byte opcodes.
proof fn lemma_kept_cb(m: MachineState)
    requires
        m.wf(),
    ensures
        kept(m, m.exec_cb()),
{
    reveal(MachineState::exec_cb);
    if let Ok(sub) = m.imm8() {
        lemma_kept_cb_group(m, sub / 8, Operand::spec_from_index(sub));
    }
}

/// [`kept`] for opcodes 0xC0 to 0xFF with `z = 0`.
proof fn lemma_kept_q3_z0(m: MachineState, y: u8)
    requires
        m.wf(),
        y < 8,
    ensures
        kept(m, m.exec_q3_z0(y)),
{
    reveal(MachineState::exec_q3_z0);
    lemma_kept_memory(m, 0, 0, 0, Operand::A);
    if let Ok(val) = m.imm8() {
        lemma_kept_byte(m.memory, (0xFF00 + val) as u16, m.regs.a);
    }
}

/// [`kept`] for opcodes 0xC0 to 0xFF with `z = 1`.
proof fn lemma_kept_q3_z1(m: MachineState, y: u8)
    requires
        m.wf(),
        y < 8,
    ensures
        kept(m, m.exec_q3_z1(y)),
{
    reveal(MachineState::exec_q3_z1);
    lemma_kept_memory(m, 0, 0, 0, Operand::A);
    if let Ok((after, val)) = m.pop16() {
        lemma_alu_keeps_flags_valid(after.regs, 0, 0, val);
    }
}

/// [`kept`] for opcodes 0xC0 to 0xFF with `z = 2`.
proof fn lemma_kept_q3_z2(m: MachineState, y: u8)
    requires
        m.wf(),
        y < 8,
    ensures
        kept(m, m.exec_q3_z2(y)),
{
    reveal(MachineState::exec_q3_z2);
    lemma_kept_byte(m.memory, (0xFF00 + m.regs.c) as u16, m.regs.a);
    if let Ok(address) = m.imm16() {
        lemma_kept_byte(m.memory, address, m.regs.a);
    }
}

/// [`kept`] for opcodes 0xC0 to 0xFF.
proof fn lemma_kept_q3(m: MachineState, op: u8)
    requires
        m.wf(),
        0xC0 <= op,
    ensures
        kept(m, m.exec_q3(op)),
{
    reveal(MachineState::exec_q3);
    let y = ((op / 8) % 8) as u8;
    let z = op % 8;
    if z == 0 {
        lemma_kept_q3_z0(m, y);
    } else if z == 1 {
        lemma_kept_q3_z1(m, y);
    } else if z == 2 {
        lemma_kept_q3_z2(m, y);
    } else if z == 3 {
        lemma_kept_cb(m);
    } else if z == 4 || z == 5 {
        lemma_kept_memory(m, 0, 0, (m.regs.pc + 3) as u16, Operand::A);
        lemma_kept_memory(m, 0, 0, m.stack_pair(y / 2), Operand::A);
    } else if z == 6 {
        if let Ok(val) = m.imm8() {
            lemma_alu_keeps_flags_valid(m.regs, y, val, 0);
        }
    } else {
        lemma_kept_memory(m, 0, 0, (m.regs.pc + 1) as u16, Operand::A);
    }
}

/// An instruction that completes leaves a valid machine valid, costs one to
/// six machine cycles, does not touch the timing or the hand-off of the
/// pixel processing unit, and does not switch the boot overlay back in.
pub proof fn lemma_execute_keeps_validity(m: MachineState, op: u8)
    requires
        m.wf(),
    ensures
        kept(m, m.execute(op)),
{
    reveal(MachineState::execute);
    if op < 0x40 {
        lemma_kept_q0(m, op);
    } else if op < 0xC0 {
        lemma_kept_ld_alu(m, op);
    } else {
        lemma_kept_q3(m, op);
    }
}

/// A step leaves a valid machine valid.
pub proof fn lemma_step_keeps_validity(m: MachineState)
    requires
        m.wf(),
    ensures
        m.step().0.wf(),
{
    if !m.memory.gpu.blocked() {
        if let Ok(op) = m.memory.read_byte(m.regs.pc) {
            lemma_execute_keeps_validity(m, op);
            if let Ok((after, cycles)) = m.execute(op) {
                lemma_one_frame_in_flight(after.memory.gpu, (cycles * 4) as usize);
            }
        }
    }
}

/// The load of `A` from the byte that follows (opcode 0x3E) puts the byte
/// in `A`, moves `PC` by two and costs two machine cycles.
pub proof fn lemma_load_immediate(m: MachineState, n: u8)
    requires
        m.regs.pc <= 0xFFFD,
        m.memory.read_byte((m.regs.pc + 1) as u16) == Ok::<u8, VmExit>(n),
    ensures
        m.execute(0x3E) == Ok::<(MachineState, u8), VmExit>(
            (m.with_regs(Registers { a: n, pc: (m.regs.pc + 2) as u16, ..m.regs }), 2u8),
        ),
{
    reveal(MachineState::execute);
    reveal(MachineState::exec_q0);
}

/// The opcodes without a meaning: decimal adjust and the eleven holes of the
/// opcode table.
pub open spec fn unimplemented_opcode(op: u8) -> bool {
    ||| op == 0x27
    ||| op == 0xD3
    ||| op == 0xDB
    ||| op == 0xDD
    ||| op == 0xE3
    ||| op == 0xE4
    ||| op == 0xEB
    ||| op == 0xEC
    ||| op == 0xED
    ||| op == 0xF4
    ||| op == 0xFC
    ||| op == 0xFD
}

/// The byte that follows the opcode can be read and names a two-byte
/// operation outside the four implemented groups.
pub open spec fn unimplemented_prefixed(m: MachineState) -> bool {
    match m.imm8() {
        Ok(sub) => sub / 8 != 2 && sub / 8 != 6 && sub / 8 != 7 && sub / 8 != 15,
        Err(_) => false,
    }
}

/// An outcome that fails, if it fails, with `OobRead`.
pub open spec fn refuses_only<T>(outcome: Result<T, VmExit>) -> bool {
    outcome matches Err(e) ==> e == VmExit::OobRead
}

/// The building blocks of the instructions fail with no other exit than
/// `OobRead`.
proof fn lemma_refusals(m: MachineState, loc: Operand, val: u8, word: u16, len: u16, cycles: u8)
    ensures
        refuses_only(m.imm8()),
        refuses_only(m.imm16()),
        refuses_only(m.load(loc)),
        refuses_only(m.store(loc, val)),
        refuses_only(m.push16(word)),
        refuses_only(m.pop16()),
        refuses_only(m.done(len, cycles)),
        refuses_only(m.jr()),
        refuses_only(m.call()),
        refuses_only(m.ret(cycles)),
        refuses_only(m.alu_rl(loc)),
        refuses_only(m.alu_swap(loc)),
        refuses_only(m.alu_srl(loc)),
{
}

/// The exits of opcodes 0x00 to 0x3F with `z = 0`.
proof fn lemma_reasons_misc(m: MachineState, y: u8)
    requires
        y < 8,
    ensures
        y == 2 ==> m.exec_misc(y) == Err::<(MachineState, u8), VmExit>(VmExit::Stop),
        y != 2 ==> refuses_only(m.exec_misc(y)),
{
    reveal(MachineState::exec_misc);
}

/// The exits of opcodes 0x00 to 0x3F with `z = 2`.
proof fn lemma_reasons_indirect(m: MachineState, y: u8)
    requires
        y < 8,
    ensures
        refuses_only(m.exec_indirect(y)),
{
    reveal(MachineState::exec_indirect);
}

/// The exits of opcodes 0x00 to 0x3F with `z = 4` or `z = 5`.
proof fn lemma_reasons_inc_dec(m: MachineState, y: u8, z: u8)
    requires
        y < 8,
    ensures
        refuses_only(m.exec_inc_dec(y, z)),
{
    reveal(MachineState::exec_inc_dec);
}

/// The exits of opcodes 0x00 to 0x3F with `z = 7`.
proof fn lemma_reasons_accumulator(m: MachineState, y: u8)
    requires
        y < 8,
    ensures
        y == 4 ==> m.exec_accumulator(y) == Err::<(MachineState, u8), VmExit>(
            VmExit::Unimplemented,
        ),
        y != 4 ==> refuses_only(m.exec_accumulator(y)),
{
    reveal(MachineState::exec_accumulator);
}

/// The exits of opcodes 0x00 to 0x3F.
proof fn lemma_reasons_q0(m: MachineState, op: u8)
    requires
        op < 0x40,
    ensures
        op == 0x10 ==> m.exec_q0(op) == Err::<(MachineState, u8), VmExit>(VmExit::Stop),
        op == 0x27 ==> m.exec_q0(op) == Err::<(MachineState, u8), VmExit>(VmExit::Unimplemented),
        op != 0x10 && op != 0x27 ==> refuses_only(m.exec_q0(op)),
{
    reveal(MachineState::exec_q0);
    let y = (op / 8) as u8;
    let z = op % 8;
    if z == 0 {
        lemma_reasons_misc(m, y);
    } else if z == 2 {
        lemma_reasons_indirect(m, y);
    } else if z == 4 || z == 5 {
        lemma_reasons_inc_dec(m, y, z);
    } else if z == 7 {
        lemma_reasons_accumulator(m, y);
    }
}

/// The exits of opcodes 0x40 to 0xBF.
proof fn lemma_reasons_ld_alu(m: MachineState, op: u8)
    requires
        0x40 <= op < 0xC0,
    ensures
        op == 0x76 ==> m.exec_ld(op) == Err::<(MachineState, u8), VmExit>(VmExit::Halt),
        op < 0x80 && op != 0x76 ==> refuses_only(m.exec_ld(op)),
        op >= 0x80 ==> refuses_only(m.exec_alu(op)),
{
    reveal(MachineState::exec_ld);
    reveal(MachineState::exec_alu);
}

/// The exits of opcodes 0xC0 to 0xFF with `z = 0`.
proof fn lemma_reasons_q3_z0(m: MachineState, y: u8)
    requires
        y < 8,
    ensures
        refuses_only(m.exec_q3_z0(y)),
{
    reveal(MachineState::exec_q3_z0);
}

/// The exits of opcodes 0xC0 to 0xFF with `z = 1`.
proof fn lemma_reasons_q3_z1(m: MachineState, y: u8)
    requires
        y < 8,
    ensures
        refuses_only(m.exec_q3_z1(y)),
{
    reveal(MachineState::exec_q3_z1);
}

/// The exits of opcodes 0xC0 to 0xFF with `z = 2`.
proof fn lemma_reasons_q3_z2(m: MachineState, y: u8)
    requires
        y < 8,
    ensures
        refuses_only(m.exec_q3_z2(y)),
{
    reveal(MachineState::exec_q3_z2);
}

/// The exits of opcodes 0xC0 to 0xFF.
proof fn lemma_reasons_q3(m: MachineState, op: u8)
    requires
        0xC0 <= op,
    ensures
        unimplemented_opcode(op) ==> m.exec_q3(op) == Err::<(MachineState, u8), VmExit>(
            VmExit::Unimplemented,
        ),
        !unimplemented_opcode(op) && op != 0xCB ==> refuses_only(m.exec_q3(op)),
        op == 0xCB ==> m.exec_q3(op) == m.exec_cb(),
{
    reveal(MachineState::exec_q3);
    let y = ((op / 8) % 8) as u8;
    let z = op % 8;
    lemma_opcode_holes(op);
    if z == 0 {
        lemma_reasons_q3_z0(m, y);
    } else if z == 1 {
        lemma_reasons_q3_z1(m, y);
    } else if z == 2 {
        lemma_reasons_q3_z2(m, y);
    } else if z == 3 {
        assert(refuses_only(m.imm16()));
    } else if z == 4 {
        assert(refuses_only(m.call()));
    } else if z == 5 {
        assert(refuses_only(m.call()));
        assert(refuses_only(m.push16(m.stack_pair(y / 2))));
    } else if z == 6 {
        assert(refuses_only(m.imm8()));
    } else {
        assert(refuses_only(m.push16((m.regs.pc + 1) as u16)));
    }
}

/// The holes of the last quarter of the opcode table, by the fields of the
/// opcode.
proof fn lemma_opcode_holes(op: u8)
    requires
        0xC0 <= op,
    ensures
        unimplemented_opcode(op) <==> (op % 8 == 3 && 2 <= (op / 8) % 8 <= 5) || (op % 8 == 4 && (op
            / 8) % 8 >= 4) || (op % 8 == 5 && ((op / 8) % 8) % 2 == 1 && (op / 8) % 8 != 1),
        op == 0xCB <==> op % 8 == 3 && (op / 8) % 8 == 1,
{
    assert(0xC0 <= op ==> ((op == 0xD3 || op == 0xDB || op == 0xDD || op == 0xE3 || op == 0xE4 || op
        == 0xEB || op == 0xEC || op == 0xED || op == 0xF4 || op == 0xFC || op == 0xFD) <==> (op % 8
        == 3 && 2 <= (op / 8) % 8 && (op / 8) % 8 <= 5) || (op % 8 == 4 && (op / 8) % 8 >= 4) || (op
        % 8 == 5 && ((op / 8) % 8) % 2 == 1 && (op / 8) % 8 != 1)) && (op == 0xCB <==> op % 8 == 3
        && (op / 8) % 8 == 1)) by (bit_vector);
}

/// Why an instruction ends the run: STOP (opcode 0x10) and HALT (opcode
/// 0x76) end with their exits and nothing else does; the opcodes without a
/// meaning and the two-byte opcodes outside the four implemented groups end
/// with `Unimplemented` and nothing else does; every other failure is
/// `OobRead`, and no instruction ends with `Exit`.
pub proof fn lemma_exit_reasons(m: MachineState, op: u8)
    ensures
        m.execute(op) == Err::<(MachineState, u8), VmExit>(VmExit::Stop) <==> op == 0x10,
        m.execute(op) == Err::<(MachineState, u8), VmExit>(VmExit::Halt) <==> op == 0x76,
        m.execute(op) == Err::<(MachineState, u8), VmExit>(VmExit::Unimplemented)
            <==> unimplemented_opcode(op) || (op == 0xCB && unimplemented_prefixed(m)),
        m.execute(op) != Err::<(MachineState, u8), VmExit>(VmExit::Exit),
{
    reveal(MachineState::execute);
    if op < 0x40 {
        lemma_reasons_q0(m, op);
    } else if op < 0xC0 {
        lemma_reasons_ld_alu(m, op);
    } else {
        lemma_reasons_q3(m, op);
        if op == 0xCB {
            reveal(MachineState::exec_cb);
            lemma_refusals(m, Operand::A, 0, 0, 2, 2);
            if let Ok(sub) = m.imm8() {
                crate::machine::lemma_cb_group(m, sub / 8, Operand::spec_from_index(sub));
                if let Ok(after) = m.exec_cb_group(sub / 8, Operand::spec_from_index(sub)) {
                    lemma_refusals(after, Operand::A, 0, 0, 2, if sub % 8 == 6 { 4u8 } else { 2u8 });
                }
            }
        }
    }
}

/// A load of `A` followed by HALT: wherever the three bytes `0x3E`, `n`,
/// `0x76` stand at `PC`, the first step puts `n` in `A`, moves `PC` to the
/// HALT and hands two machine cycles, eight clock ticks, to the pixel
/// processing unit; the second step ends with the HALT exit and changes
/// nothing.
pub proof fn lemma_load_then_halt(m: MachineState, n: u8)
    requires
        m.wf(),
        !m.memory.gpu.blocked(),
        m.regs.pc <= 0xFFFD,
        m.memory.read_byte(m.regs.pc) == Ok::<u8, VmExit>(0x3E),
        m.memory.read_byte((m.regs.pc + 1) as u16) == Ok::<u8, VmExit>(n),
        m.memory.read_byte((m.regs.pc + 2) as u16) == Ok::<u8, VmExit>(0x76),
    ensures
        m.step().0.regs == (Registers { a: n, pc: (m.regs.pc + 2) as u16, ..m.regs }),
        m.step().0.memory == (MemoryState { gpu: m.memory.gpu.step(8).0, ..m.memory }),
        m.step().1 == Ok::<FrameEvent, VmExit>(m.memory.gpu.step(8).1),
        !m.step().0.memory.gpu.blocked() ==> m.step().0.step() == (
            m.step().0,
            Err::<FrameEvent, VmExit>(VmExit::Halt),
        ),
        m.quiet() ==> m.runs_to(1, m.step().0, Err::<(), VmExit>(VmExit::Halt)),
{
    let after = m.step().0;
    lemma_load_immediate(m, n);
    lemma_exit_reasons(after, 0x76);
    lemma_one_frame_in_flight(m.memory.gpu, 8);
    assert(after.memory.read_byte(after.regs.pc) == Ok::<u8, VmExit>(0x76));
    if m.quiet() {
        assert(m.steps(0) == m);
        assert(m.steps(1) == after);
    }
}

/// A run is determined by the state it starts from: its length, its end
/// state and its result are unique.
pub proof fn lemma_run_deterministic(
    m: MachineState,
    n1: nat,
    end1: MachineState,
    res1: Result<(), VmExit>,
    n2: nat,
    end2: MachineState,
    res2: Result<(), VmExit>,
)
    requires
        m.runs_to(n1, end1, res1),
        m.runs_to(n2, end2, res2),
    ensures
        n1 == n2,
        end1 == end2,
        res1 == res2,
{
    if n1 < n2 {
        assert(m.steps(n1).quiet());
    } else if n2 < n1 {
        assert(m.steps(n2).quiet());
    }
}

} // verus!
