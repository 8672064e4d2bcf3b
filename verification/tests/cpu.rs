use gbemu::emulator::Emulator;
use gbemu::exit::VmExit;
use gbemu::gpu::{FrameEvent, GpuMode};
use gbemu::machine::{sign_extend, Operand};
use gbemu::registers::CpuFlag;

/// A machine with the boot overlay switched out and `program` at address 0.
fn machine(program: &[u8]) -> Emulator {
    let mut emu = Emulator::new(vec![0; 256]);
    let mut rom = vec![0u8; 32768];
    rom[..program.len()].copy_from_slice(program);
    emu.memory.load_rom(rom);
    emu.memory.write_byte(0xFF50, 1).unwrap();
    emu.regs.sp = 0xFFFE;
    emu
}

/// Runs one instruction and returns its cost in clock ticks, read off the
/// pixel processing unit.
fn ticks(emu: &mut Emulator) -> usize {
    emu.memory.gpu.modeclock = 0;
    emu.memory.gpu.mode = GpuMode::VBlank;
    emu.memory.gpu.line = 150;
    assert_eq!(emu.step(), Ok(FrameEvent::Running));
    emu.memory.gpu.modeclock
}

#[test]
fn ld_a_then_halt() {
    let mut emu = Emulator::new(vec![0; 256]);
    let mut rom = vec![0u8; 32768];
    rom[0] = 0x3E;
    rom[1] = 0x05;
    rom[2] = 0x76;
    emu.memory.load_rom(rom);
    emu.memory.write_byte(0xFF50, 1).unwrap();
    assert_eq!(emu.regs.pc, 0);
    assert_eq!(emu.run(), Err(VmExit::Halt));
    assert_eq!(emu.regs.a, 5);
    assert_eq!(emu.regs.pc, 2);
    assert_eq!(emu.memory.gpu.modeclock, 2 * 4);
    assert_eq!(emu.memory.gpu.mode, GpuMode::OAMAccess);
    assert_eq!(emu.memory.gpu.line, 0);
    assert_eq!(emu.run(), Err(VmExit::Halt));
    assert_eq!(emu.regs.pc, 2);
    assert_eq!(emu.memory.gpu.modeclock, 8);
}

#[test]
fn new_machine_is_zeroed_and_boots_from_the_overlay() {
    let mut boot = vec![0u8; 256];
    boot[0] = 0x3E;
    boot[1] = 0x2A;
    boot[2] = 0x10;
    let mut emu = Emulator::new(boot);
    assert_eq!(emu.regs.af(), 0);
    assert_eq!(emu.regs.sp, 0);
    assert_eq!(emu.regs.pc, 0);
    assert!(emu.memory.bootrom_lock);
    assert_eq!(emu.run(), Err(VmExit::Stop));
    assert_eq!(emu.regs.a, 0x2A);
    assert_eq!(emu.regs.pc, 2);
}

#[test]
fn push_then_pop_returns_the_word_and_restores_sp() {
    for sp in [0xC002u16, 0xD000, 0xDFFF + 1, 0xFF82, 0xFFFE, 0x8002, 0xA000] {
        for x in [0u16, 1, 0x00FF, 0x1234, 0x8000, 0xFFFF] {
            let mut emu = machine(&[]);
            emu.regs.sp = sp;
            assert_eq!(emu.push16(x), Ok(()));
            assert_eq!(emu.regs.sp, sp - 2);
            assert_eq!(emu.memory.read_byte(sp - 2), Ok((x & 0xFF) as u8));
            assert_eq!(emu.memory.read_byte(sp - 1), Ok((x >> 8) as u8));
            assert_eq!(emu.pop16(), Ok(x));
            assert_eq!(emu.regs.sp, sp);
        }
    }
}

#[test]
fn push_and_pop_refuse_at_the_boundaries() {
    let mut emu = machine(&[]);
    emu.regs.sp = 1;
    assert_eq!(emu.push16(0x1234), Err(VmExit::OobRead));
    assert_eq!(emu.regs.sp, 1);
    emu.regs.sp = 0;
    assert_eq!(emu.push16(0x1234), Err(VmExit::OobRead));
    emu.regs.sp = 0xFFFE;
    assert_eq!(emu.pop16(), Err(VmExit::OobRead));
    assert_eq!(emu.regs.sp, 0xFFFE);
    emu.regs.sp = 0xFFFF;
    assert_eq!(emu.pop16(), Err(VmExit::OobRead));
    emu.regs.sp = 0xFFFD;
    assert_eq!(emu.pop16(), Ok(0));
    assert_eq!(emu.regs.sp, 0xFFFF);
}

#[test]
fn push_into_refused_memory_changes_nothing() {
    let mut emu = machine(&[]);
    emu.regs.sp = 0xE002;
    assert_eq!(emu.push16(0x1234), Err(VmExit::OobRead));
    assert_eq!(emu.regs.sp, 0xE002);
    emu.regs.sp = 0xE001;
    assert_eq!(emu.push16(0x1234), Err(VmExit::OobRead));
    assert_eq!(emu.memory.read_byte(0xDFFF), Ok(0));
    emu.regs.sp = 0xFEA2;
    assert_eq!(emu.pop16(), Err(VmExit::OobRead));
    assert_eq!(emu.regs.sp, 0xFEA2);
}

#[test]
fn nop_takes_one_byte_and_one_cycle() {
    let mut emu = machine(&[0x00]);
    assert_eq!(ticks(&mut emu), 4);
    assert_eq!(emu.regs.pc, 1);
}

#[test]
fn stop_and_halt_leave_the_machine_as_it_is() {
    let mut emu = machine(&[0x00, 0x10]);
    assert_eq!(emu.step(), Ok(FrameEvent::Running));
    assert_eq!(emu.step(), Err(VmExit::Stop));
    assert_eq!(emu.regs.pc, 1);
    assert_eq!(emu.memory.gpu.modeclock, 4);
    let mut emu = machine(&[0x76]);
    assert_eq!(emu.step(), Err(VmExit::Halt));
    assert_eq!(emu.regs.pc, 0);
    assert_eq!(emu.memory.gpu.modeclock, 0);
}

#[test]
fn unimplemented_opcodes_are_reported() {
    for op in [0x27u8, 0xD3, 0xDB, 0xDD, 0xE3, 0xE4, 0xEB, 0xEC, 0xED, 0xF4, 0xFC, 0xFD] {
        let mut emu = machine(&[op, 0x00, 0x00]);
        emu.regs.a = 0x12;
        emu.regs.f = 0x50;
        assert_eq!(emu.step(), Err(VmExit::Unimplemented));
        assert_eq!(emu.run(), Err(VmExit::Unimplemented));
        assert_eq!((emu.regs.pc, emu.regs.a, emu.regs.f), (0, 0x12, 0x50));
        assert_eq!(emu.memory.gpu.modeclock, 0);
    }
}

#[test]
fn every_other_opcode_is_implemented() {
    let missing = [0x27u8, 0xD3, 0xDB, 0xDD, 0xE3, 0xE4, 0xEB, 0xEC, 0xED, 0xF4, 0xFC, 0xFD];
    for op in 0..=255u8 {
        if missing.contains(&op) || op == 0xCB {
            continue;
        }
        let mut emu = machine(&[0x00; 16]);
        emu.regs.pc = 0x4000;
        emu.regs.sp = 0xD000;
        emu.regs.set_hl(0xC000);
        emu.regs.set_bc(0xC010);
        emu.regs.set_de(0xC020);
        emu.regs.c = 0x80;
        let mut rom = vec![0u8; 32768];
        rom[0x4000] = op;
        rom[0x4001] = 0x80;
        rom[0x4002] = 0xC0;
        emu.memory.load_rom(rom);
        let res = emu.execute(op);
        match op {
            0x10 => assert_eq!(res, Err(VmExit::Stop)),
            0x76 => assert_eq!(res, Err(VmExit::Halt)),
            _ => {
                let cycles = res.unwrap();
                assert!((1..=6).contains(&cycles), "{:02x}", op);
            }
        }
    }
}

#[test]
fn prefixed_opcodes_outside_four_groups_are_unimplemented() {
    for sub in 0..=255u8 {
        let mut emu = machine(&[0xCB, sub]);
        emu.regs.set_hl(0xC000);
        let res = emu.execute(0xCB);
        let group = sub >> 3;
        if group == 2 || group == 6 || group == 7 || group == 15 {
            assert_eq!(res, Ok(if sub & 7 == 6 { 4 } else { 2 }), "{:02x}", sub);
            assert_eq!(emu.regs.pc, 2);
        } else {
            assert_eq!(res, Err(VmExit::Unimplemented), "{:02x}", sub);
            assert_eq!(emu.regs.pc, 0);
        }
    }
}

#[test]
fn loads_of_immediates() {
    let mut emu = machine(&[0x06, 0x11, 0x0E, 0x22, 0x16, 0x33, 0x1E, 0x44, 0x26, 0xC0, 0x2E, 0x66, 0x36, 0x77, 0x3E, 0x88]);
    for _ in 0..6 {
        assert_eq!(ticks(&mut emu), 8);
    }
    assert_eq!((emu.regs.b, emu.regs.c, emu.regs.d, emu.regs.e, emu.regs.h, emu.regs.l), (0x11, 0x22, 0x33, 0x44, 0xC0, 0x66));
    assert_eq!(ticks(&mut emu), 12);
    assert_eq!(emu.memory.read_byte(0xC066), Ok(0x77));
    assert_eq!(ticks(&mut emu), 8);
    assert_eq!(emu.regs.a, 0x88);
    assert_eq!(emu.regs.pc, 16);
}

#[test]
fn loads_of_16_bit_immediates() {
    let mut emu = machine(&[0x01, 0x34, 0x12, 0x11, 0x78, 0x56, 0x21, 0xBC, 0x9A, 0x31, 0xF0, 0xDE, 0x08, 0x00, 0xC1]);
    for _ in 0..4 {
        assert_eq!(ticks(&mut emu), 12);
    }
    assert_eq!((emu.regs.bc(), emu.regs.de(), emu.regs.hl(), emu.regs.sp), (0x1234, 0x5678, 0x9ABC, 0xDEF0));
    assert_eq!(ticks(&mut emu), 20);
    assert_eq!(emu.regs.sp, 0xC100);
    assert_eq!(emu.regs.pc, 15);
}

#[test]
fn register_to_register_loads() {
    let mut emu = machine(&[0x41, 0x50, 0x7A, 0x66, 0x70, 0x6E]);
    emu.regs.c = 0x5A;
    assert_eq!(ticks(&mut emu), 4);
    assert_eq!(emu.regs.b, 0x5A);
    assert_eq!(ticks(&mut emu), 4);
    assert_eq!(emu.regs.d, 0x5A);
    assert_eq!(ticks(&mut emu), 4);
    assert_eq!(emu.regs.a, 0x5A);
    emu.regs.set_hl(0xC000);
    emu.memory.write_byte(0xC000, 0xC1).unwrap();
    assert_eq!(ticks(&mut emu), 8);
    assert_eq!(emu.regs.hl(), 0xC100);
    assert_eq!(ticks(&mut emu), 8);
    assert_eq!(emu.memory.read_byte(0xC100), Ok(0x5A));
    assert_eq!(ticks(&mut emu), 8);
    assert_eq!(emu.regs.hl(), 0xC15A);
    assert_eq!(emu.regs.pc, 6);
}

#[test]
fn loads_through_register_pairs() {
    let mut emu = machine(&[0x02, 0x12, 0x22, 0x32, 0x0A, 0x1A, 0x2A, 0x3A]);
    emu.regs.a = 0x42;
    emu.regs.set_bc(0xC000);
    emu.regs.set_de(0xC001);
    emu.regs.set_hl(0xC002);
    for _ in 0..4 {
        assert_eq!(ticks(&mut emu), 8);
    }
    assert_eq!(emu.regs.hl(), 0xC002);
    for address in [0xC000u16, 0xC001, 0xC002, 0xC003] {
        assert_eq!(emu.memory.read_byte(address), Ok(0x42));
    }
    emu.memory.write_word(0xC000, 0x2211).unwrap();
    emu.memory.write_word(0xC002, 0x4433).unwrap();
    assert_eq!(ticks(&mut emu), 8);
    assert_eq!(emu.regs.a, 0x11);
    assert_eq!(ticks(&mut emu), 8);
    assert_eq!(emu.regs.a, 0x22);
    assert_eq!(ticks(&mut emu), 8);
    assert_eq!((emu.regs.a, emu.regs.hl()), (0x33, 0xC003));
    assert_eq!(ticks(&mut emu), 8);
    assert_eq!((emu.regs.a, emu.regs.hl()), (0x44, 0xC002));
}

#[test]
fn loads_through_the_high_page() {
    let mut emu = machine(&[0xE0, 0x80, 0xF0, 0x81, 0xE2, 0xF2, 0xEA, 0x00, 0xC0, 0xFA, 0x01, 0xC0, 0xF0, 0x44]);
    emu.regs.a = 0x99;
    assert_eq!(ticks(&mut emu), 12);
    assert_eq!(emu.memory.read_byte(0xFF80), Ok(0x99));
    emu.memory.write_byte(0xFF81, 0x55).unwrap();
    assert_eq!(ticks(&mut emu), 12);
    assert_eq!(emu.regs.a, 0x55);
    emu.regs.c = 0x90;
    assert_eq!(ticks(&mut emu), 8);
    assert_eq!(emu.memory.read_byte(0xFF90), Ok(0x55));
    emu.memory.write_byte(0xFF90, 0x66).unwrap();
    assert_eq!(ticks(&mut emu), 8);
    assert_eq!(emu.regs.a, 0x66);
    assert_eq!(ticks(&mut emu), 16);
    assert_eq!(emu.memory.read_byte(0xC000), Ok(0x66));
    emu.memory.write_byte(0xC001, 0x77).unwrap();
    assert_eq!(ticks(&mut emu), 16);
    assert_eq!(emu.regs.a, 0x77);
    assert_eq!(ticks(&mut emu), 12);
    assert_eq!(emu.regs.a, 150);
    assert_eq!(emu.regs.pc, 14);
}

#[test]
fn increments_and_decrements() {
    let mut emu = machine(&[0x04, 0x0D, 0x34, 0x35, 0x03, 0x1B, 0x33, 0x3B, 0x23, 0x2B]);
    emu.regs.b = 0xFF;
    emu.regs.c = 0x01;
    emu.regs.set_hl(0xC000);
    emu.memory.write_byte(0xC000, 0x0F).unwrap();
    assert_eq!(ticks(&mut emu), 4);
    assert_eq!((emu.regs.b, emu.regs.f), (0x00, 0x80));
    assert_eq!(ticks(&mut emu), 4);
    assert_eq!((emu.regs.c, emu.regs.f), (0x00, 0xC0));
    assert_eq!(ticks(&mut emu), 12);
    assert_eq!(emu.memory.read_byte(0xC000), Ok(0x10));
    assert_eq!(emu.regs.f, 0x20);
    assert_eq!(ticks(&mut emu), 12);
    assert_eq!(emu.memory.read_byte(0xC000), Ok(0x0F));
    assert_eq!(emu.regs.f, 0x60);
    emu.regs.set_bc(0xFFFF);
    emu.regs.set_de(0x0000);
    emu.regs.sp = 0xFFFF;
    assert_eq!(ticks(&mut emu), 8);
    assert_eq!(emu.regs.bc(), 0x0000);
    assert_eq!(ticks(&mut emu), 8);
    assert_eq!(emu.regs.de(), 0xFFFF);
    assert_eq!(ticks(&mut emu), 8);
    assert_eq!(emu.regs.sp, 0x0000);
    assert_eq!(ticks(&mut emu), 8);
    assert_eq!(emu.regs.sp, 0xFFFF);
    assert_eq!(ticks(&mut emu), 8);
    assert_eq!(emu.regs.hl(), 0xC001);
    assert_eq!(ticks(&mut emu), 8);
    assert_eq!(emu.regs.hl(), 0xC000);
    assert_eq!(emu.regs.f, 0x60);
}

#[test]
fn arithmetic_on_registers_memory_and_immediates() {
    let mut emu = machine(&[0x80, 0x96, 0xA7, 0xAF, 0xB1, 0xB8, 0xC6, 0x10, 0xD6, 0x01, 0xE6, 0x0F, 0xEE, 0xFF, 0xF6, 0x01, 0xFE, 0xF1, 0xCE, 0x01, 0xDE, 0x01, 0x8E, 0x9F]);
    emu.regs.a = 0x01;
    emu.regs.b = 0x02;
    emu.regs.c = 0x30;
    emu.regs.set_hl(0xC000);
    emu.memory.write_byte(0xC000, 0x03).unwrap();
    assert_eq!(ticks(&mut emu), 4);
    assert_eq!((emu.regs.a, emu.regs.f), (0x03, 0x00));
    assert_eq!(ticks(&mut emu), 8);
    assert_eq!((emu.regs.a, emu.regs.f), (0x00, 0xC0));
    assert_eq!(ticks(&mut emu), 4);
    assert_eq!((emu.regs.a, emu.regs.f), (0x00, 0xA0));
    assert_eq!(ticks(&mut emu), 4);
    assert_eq!((emu.regs.a, emu.regs.f), (0x00, 0x80));
    assert_eq!(ticks(&mut emu), 4);
    assert_eq!((emu.regs.a, emu.regs.f), (0x30, 0x00));
    assert_eq!(ticks(&mut emu), 4);
    assert_eq!((emu.regs.a, emu.regs.f), (0x30, 0x60));
    assert_eq!(ticks(&mut emu), 8);
    assert_eq!((emu.regs.a, emu.regs.f), (0x40, 0x20));
    assert_eq!(ticks(&mut emu), 8);
    assert_eq!((emu.regs.a, emu.regs.f), (0x3F, 0x60));
    assert_eq!(ticks(&mut emu), 8);
    assert_eq!((emu.regs.a, emu.regs.f), (0x0F, 0x20));
    assert_eq!(ticks(&mut emu), 8);
    assert_eq!((emu.regs.a, emu.regs.f), (0xF0, 0x00));
    assert_eq!(ticks(&mut emu), 8);
    assert_eq!((emu.regs.a, emu.regs.f), (0xF1, 0x00));
    assert_eq!(ticks(&mut emu), 8);
    assert_eq!((emu.regs.a, emu.regs.f), (0xF1, 0xE0));
    emu.regs.f = 0x10;
    assert_eq!(ticks(&mut emu), 8);
    assert_eq!((emu.regs.a, emu.regs.f), (0xF3, 0x20));
    emu.regs.f = 0x10;
    assert_eq!(ticks(&mut emu), 8);
    assert_eq!((emu.regs.a, emu.regs.f), (0xF1, 0x60));
    emu.regs.f = 0x10;
    assert_eq!(ticks(&mut emu), 8);
    assert_eq!((emu.regs.a, emu.regs.f), (0xF5, 0x20));
    emu.regs.f = 0x00;
    assert_eq!(ticks(&mut emu), 4);
    assert_eq!((emu.regs.a, emu.regs.f), (0x00, 0xE0));
    assert_eq!(emu.regs.pc, 24);
}

#[test]
fn add_to_hl() {
    let mut emu = machine(&[0x09, 0x19, 0x29, 0x39]);
    emu.regs.set_hl(0x0F00);
    emu.regs.set_bc(0x0100);
    emu.regs.set_de(0xF000);
    emu.regs.sp = 0x0001;
    emu.regs.f = 0x80;
    assert_eq!(ticks(&mut emu), 8);
    assert_eq!((emu.regs.hl(), emu.regs.f), (0x1000, 0xA0));
    assert_eq!(ticks(&mut emu), 8);
    assert_eq!((emu.regs.hl(), emu.regs.f), (0x0000, 0xB0));
    assert_eq!(ticks(&mut emu), 8);
    assert_eq!((emu.regs.hl(), emu.regs.f), (0x0000, 0x80));
    assert_eq!(ticks(&mut emu), 8);
    assert_eq!((emu.regs.hl(), emu.regs.f), (0x0001, 0x80));
}

#[test]
fn stack_pointer_with_unsigned_offset() {
    let mut emu = machine(&[0xE8, 0x05, 0xF8, 0xFF, 0xF9, 0xE8, 0x01]);
    emu.regs.sp = 0x000C;
    emu.regs.f = 0xC0;
    assert_eq!(ticks(&mut emu), 16);
    assert_eq!((emu.regs.sp, emu.regs.f), (0x0011, 0x20));
    assert_eq!(ticks(&mut emu), 12);
    assert_eq!((emu.regs.hl(), emu.regs.sp, emu.regs.f), (0x0110, 0x0011, 0x30));
    assert_eq!(ticks(&mut emu), 8);
    assert_eq!(emu.regs.sp, 0x0110);
    emu.regs.sp = 0xFFFF;
    assert_eq!(ticks(&mut emu), 16);
    assert_eq!((emu.regs.sp, emu.regs.f), (0x0000, 0x30));
}

#[test]
fn accumulator_rotates_and_flag_operations() {
    let mut emu = machine(&[0x07, 0x0F, 0x17, 0x1F, 0x2F, 0x37, 0x3F, 0x3F]);
    emu.regs.a = 0x81;
    emu.regs.f = 0xE0;
    assert_eq!(ticks(&mut emu), 4);
    assert_eq!((emu.regs.a, emu.regs.f), (0x03, 0x10));
    assert_eq!(ticks(&mut emu), 4);
    assert_eq!((emu.regs.a, emu.regs.f), (0x81, 0x10));
    assert_eq!(ticks(&mut emu), 4);
    assert_eq!((emu.regs.a, emu.regs.f), (0x03, 0x10));
    assert_eq!(ticks(&mut emu), 4);
    assert_eq!((emu.regs.a, emu.regs.f), (0x01, 0x10));
    emu.regs.f = 0x90;
    assert_eq!(ticks(&mut emu), 4);
    assert_eq!((emu.regs.a, emu.regs.f), (0xFE, 0xF0));
    emu.regs.f = 0xE0;
    assert_eq!(ticks(&mut emu), 4);
    assert_eq!((emu.regs.a, emu.regs.f), (0xFE, 0x90));
    assert_eq!(ticks(&mut emu), 4);
    assert_eq!(emu.regs.f, 0x80);
    assert_eq!(ticks(&mut emu), 4);
    assert_eq!(emu.regs.f, 0x90);
    assert_eq!(emu.regs.pc, 8);
}

#[test]
fn rla_clears_zero() {
    let mut emu = machine(&[0x17, 0x17]);
    emu.regs.a = 0x80;
    emu.regs.f = 0x00;
    assert_eq!(ticks(&mut emu), 4);
    assert_eq!((emu.regs.a, emu.regs.f), (0x00, 0x10));
    assert_eq!(ticks(&mut emu), 4);
    assert_eq!((emu.regs.a, emu.regs.f), (0x01, 0x00));
}

#[test]
fn relative_jumps() {
    let mut emu = machine(&[0x18, 0x02, 0x00, 0x00, 0x18, 0xFE]);
    assert_eq!(ticks(&mut emu), 12);
    assert_eq!(emu.regs.pc, 4);
    assert_eq!(ticks(&mut emu), 12);
    assert_eq!(emu.regs.pc, 4);
    let mut emu = machine(&[0x18, 0xFD]);
    assert_eq!(ticks(&mut emu), 12);
    assert_eq!(emu.regs.pc, 0xFFFF);
    assert_eq!(sign_extend(0x02), 0x0002);
    assert_eq!(sign_extend(0x7F), 0x007F);
    assert_eq!(sign_extend(0x80), 0xFF80);
    assert_eq!(sign_extend(0xFE), 0xFFFE);
}

#[test]
fn conditional_relative_jumps() {
    for (op, flag, when) in [(0x20u8, CpuFlag::Z, false), (0x28, CpuFlag::Z, true), (0x30, CpuFlag::C, false), (0x38, CpuFlag::C, true)] {
        let mut emu = machine(&[op, 0x10]);
        emu.regs.set_flag(flag, when);
        assert_eq!(ticks(&mut emu), 12);
        assert_eq!(emu.regs.pc, 0x12);
        let mut emu = machine(&[op, 0x10]);
        emu.regs.set_flag(flag, !when);
        assert_eq!(ticks(&mut emu), 8);
        assert_eq!(emu.regs.pc, 2);
    }
}

#[test]
fn absolute_jumps_land_on_the_target() {
    let mut emu = machine(&[0xC3, 0x34, 0x12]);
    assert_eq!(ticks(&mut emu), 16);
    assert_eq!(emu.regs.pc, 0x1234);
    for (op, flag, when) in [(0xC2u8, CpuFlag::Z, false), (0xCA, CpuFlag::Z, true), (0xD2, CpuFlag::C, false), (0xDA, CpuFlag::C, true)] {
        let mut emu = machine(&[op, 0x00, 0x40]);
        emu.regs.set_flag(flag, when);
        assert_eq!(ticks(&mut emu), 16);
        assert_eq!(emu.regs.pc, 0x4000);
        let mut emu = machine(&[op, 0x00, 0x40]);
        emu.regs.set_flag(flag, !when);
        assert_eq!(ticks(&mut emu), 12);
        assert_eq!(emu.regs.pc, 3);
    }
    let mut emu = machine(&[0xE9]);
    emu.regs.set_hl(0xC000);
    emu.memory.write_word(0xC000, 0x2345).unwrap();
    assert_eq!(ticks(&mut emu), 4);
    assert_eq!(emu.regs.pc, 0x2345);
}

#[test]
fn call_pushes_the_address_of_the_next_instruction() {
    let mut rom = vec![0u8; 0x30];
    rom[0x10] = 0xCD;
    rom[0x11] = 0x20;
    rom[0x12] = 0x00;
    rom[0x20] = 0xC9;
    let mut emu = machine(&rom);
    emu.regs.pc = 0x10;
    emu.regs.sp = 0xD000;
    assert_eq!(ticks(&mut emu), 24);
    assert_eq!(emu.regs.pc, 0x20);
    assert_eq!(emu.regs.sp, 0xCFFE);
    assert_eq!(emu.memory.read_word(0xCFFE), Ok(0x0013));
    assert_eq!(ticks(&mut emu), 16);
    assert_eq!(emu.regs.pc, 0x13);
    assert_eq!(emu.regs.sp, 0xD000);
}

#[test]
fn conditional_calls_and_returns() {
    for (call, ret, flag, when) in [(0xC4u8, 0xC0u8, CpuFlag::Z, false), (0xCC, 0xC8, CpuFlag::Z, true), (0xD4, 0xD0, CpuFlag::C, false), (0xDC, 0xD8, CpuFlag::C, true)] {
        let mut emu = machine(&[call, 0x05, 0x00, 0x00, 0x00, ret]);
        emu.regs.sp = 0xD000;
        emu.regs.set_flag(flag, !when);
        assert_eq!(ticks(&mut emu), 12);
        assert_eq!((emu.regs.pc, emu.regs.sp), (3, 0xD000));
        emu.regs.pc = 0;
        emu.regs.set_flag(flag, when);
        assert_eq!(ticks(&mut emu), 24);
        assert_eq!((emu.regs.pc, emu.regs.sp), (5, 0xCFFE));
        emu.regs.set_flag(flag, !when);
        assert_eq!(ticks(&mut emu), 8);
        assert_eq!((emu.regs.pc, emu.regs.sp), (6, 0xCFFE));
        emu.regs.pc = 5;
        emu.regs.set_flag(flag, when);
        assert_eq!(ticks(&mut emu), 20);
        assert_eq!((emu.regs.pc, emu.regs.sp), (3, 0xD000));
    }
}

#[test]
fn reti_returns_like_ret() {
    let mut emu = machine(&[0xD9]);
    emu.regs.sp = 0xC000;
    emu.memory.write_word(0xC000, 0x0150).unwrap();
    assert_eq!(ticks(&mut emu), 16);
    assert_eq!((emu.regs.pc, emu.regs.sp), (0x0150, 0xC002));
}

#[test]
fn restarts_push_and_jump_to_the_vector() {
    for (op, vector) in [(0xC7u8, 0x00u16), (0xCF, 0x08), (0xD7, 0x10), (0xDF, 0x18), (0xE7, 0x20), (0xEF, 0x28), (0xF7, 0x30), (0xFF, 0x38)] {
        let mut rom = vec![0u8; 0x200];
        rom[0x100] = op;
        let mut emu = machine(&rom);
        emu.regs.pc = 0x100;
        emu.regs.sp = 0xD000;
        assert_eq!(ticks(&mut emu), 16);
        assert_eq!(emu.regs.pc, vector);
        assert_eq!(emu.regs.sp, 0xCFFE);
        assert_eq!(emu.memory.read_word(0xCFFE), Ok(0x0101));
    }
}

#[test]
fn pushes_and_pops() {
    let mut emu = machine(&[0xC5, 0xD5, 0xE5, 0xF5, 0xC1, 0xD1, 0xE1, 0xF1]);
    emu.regs.sp = 0xD000;
    emu.regs.set_bc(0x1122);
    emu.regs.set_de(0x3344);
    emu.regs.set_hl(0x5566);
    emu.regs.a = 0x77;
    emu.regs.f = 0x80;
    for _ in 0..4 {
        assert_eq!(ticks(&mut emu), 16);
    }
    assert_eq!(emu.regs.sp, 0xCFF8);
    assert_eq!(emu.memory.read_word(0xCFFE), Ok(0x1122));
    assert_eq!(emu.memory.read_word(0xCFFC), Ok(0x3344));
    assert_eq!(emu.memory.read_word(0xCFFA), Ok(0x5566));
    assert_eq!(emu.memory.read_word(0xCFF8), Ok(0x7780));
    for _ in 0..4 {
        assert_eq!(ticks(&mut emu), 12);
    }
    assert_eq!(emu.regs.sp, 0xD000);
    assert_eq!((emu.regs.bc(), emu.regs.de(), emu.regs.hl(), emu.regs.af()), (0x7780, 0x5566, 0x3344, 0x1120));
}

#[test]
fn prefixed_operations() {
    let mut emu = machine(&[0xCB, 0x10, 0xCB, 0x31, 0xCB, 0x3A, 0xCB, 0x7F, 0xCB, 0x7E, 0xCB, 0x36, 0xCB, 0x16, 0xCB, 0x3E]);
    emu.regs.b = 0x80;
    emu.regs.c = 0x12;
    emu.regs.d = 0x03;
    emu.regs.a = 0x80;
    emu.regs.set_hl(0xC000);
    emu.memory.write_byte(0xC000, 0x7F).unwrap();
    assert_eq!(ticks(&mut emu), 8);
    assert_eq!((emu.regs.b, emu.regs.f), (0x00, 0x90));
    assert_eq!(ticks(&mut emu), 8);
    assert_eq!((emu.regs.c, emu.regs.f), (0x21, 0x00));
    assert_eq!(ticks(&mut emu), 8);
    assert_eq!((emu.regs.d, emu.regs.f), (0x01, 0x10));
    assert_eq!(ticks(&mut emu), 8);
    assert_eq!((emu.regs.a, emu.regs.f), (0x80, 0x10));
    assert_eq!(ticks(&mut emu), 16);
    assert_eq!(emu.regs.f, 0x90);
    assert_eq!(ticks(&mut emu), 16);
    assert_eq!((emu.memory.read_byte(0xC000), emu.regs.f), (Ok(0xF7), 0x00));
    assert_eq!(ticks(&mut emu), 16);
    assert_eq!((emu.memory.read_byte(0xC000), emu.regs.f), (Ok(0xEE), 0x10));
    assert_eq!(ticks(&mut emu), 16);
    assert_eq!((emu.memory.read_byte(0xC000), emu.regs.f), (Ok(0x77), 0x00));
    assert_eq!(emu.regs.pc, 16);
}

#[test]
fn interrupt_switches_are_no_ops() {
    let mut emu = machine(&[0xF3, 0xFB]);
    emu.regs.f = 0x50;
    assert_eq!(ticks(&mut emu), 4);
    assert_eq!(ticks(&mut emu), 4);
    assert_eq!((emu.regs.pc, emu.regs.f), (2, 0x50));
}

#[test]
fn refused_access_stops_the_machine_unchanged() {
    let mut emu = machine(&[0x34]);
    emu.regs.set_hl(0xA000);
    emu.regs.f = 0x00;
    assert_eq!(emu.step(), Err(VmExit::OobRead));
    assert_eq!((emu.regs.pc, emu.regs.f), (0, 0x00));
    let mut emu = machine(&[0x77]);
    emu.regs.set_hl(0x4000);
    assert_eq!(emu.run(), Err(VmExit::OobRead));
    assert_eq!(emu.regs.pc, 0);
    let mut emu = machine(&[0x7E]);
    emu.regs.set_hl(0xFE00);
    assert_eq!(emu.run(), Err(VmExit::OobRead));
    let mut emu = machine(&[0xCD, 0x00, 0x10]);
    emu.regs.sp = 0x8001;
    assert_eq!(emu.run(), Err(VmExit::OobRead));
    assert_eq!((emu.regs.pc, emu.regs.sp), (0, 0x8001));
    assert_eq!(emu.memory.read_byte(0x8000), Ok(0));
    let mut emu = machine(&[0xF0, 0x03]);
    assert_eq!(emu.run(), Err(VmExit::OobRead));
    let mut emu = machine(&[0xE0, 0x0F]);
    emu.regs.a = 2;
    assert_eq!(emu.run(), Err(VmExit::OobRead));
    assert_eq!(emu.memory.interrupt_flags, 0);
}

#[test]
fn running_off_the_address_space_is_refused() {
    let mut emu = machine(&[]);
    emu.regs.pc = 0xFFFF;
    assert_eq!(emu.step(), Err(VmExit::OobRead));
    assert_eq!(emu.regs.pc, 0xFFFF);
    emu.memory.write_byte(0xFFFF, 0x3E).unwrap();
    assert_eq!(emu.step(), Err(VmExit::OobRead));
    emu.memory.write_byte(0xFFFE, 0x3E).unwrap();
    emu.regs.pc = 0xFFFE;
    assert_eq!(emu.step(), Err(VmExit::OobRead));
    assert_eq!((emu.regs.pc, emu.regs.a), (0xFFFE, 0));
    emu.memory.write_byte(0xFFFD, 0x3E).unwrap();
    emu.regs.pc = 0xFFFD;
    assert_eq!(emu.step(), Ok(FrameEvent::Running));
    assert_eq!((emu.regs.pc, emu.regs.a), (0xFFFF, 0x3E));
    emu.memory.write_byte(0xFFFD, 0xC3).unwrap();
    emu.regs.pc = 0xFFFD;
    assert_eq!(emu.step(), Ok(FrameEvent::Running));
    assert_eq!(emu.regs.pc, 0x3E3E);
    let mut emu = machine(&[]);
    emu.memory.load_rom(vec![0x00, 0x00]);
    assert_eq!(emu.run(), Err(VmExit::OobRead));
    assert_eq!(emu.regs.pc, 2);
    assert_eq!(emu.memory.gpu.modeclock, 8);
}

#[test]
fn operands_load_and_store() {
    let mut emu = machine(&[]);
    emu.regs.set_hl(0xC000);
    for (i, loc) in [Operand::B, Operand::C, Operand::D, Operand::E, Operand::HlIndirect, Operand::A].into_iter().enumerate() {
        assert_eq!(emu.store(loc, 0x10 + i as u8), Ok(()));
        assert_eq!(emu.load(loc), Ok(0x10 + i as u8));
    }
    assert_eq!((emu.regs.b, emu.regs.c, emu.regs.d, emu.regs.e, emu.regs.a), (0x10, 0x11, 0x12, 0x13, 0x15));
    assert_eq!(emu.memory.read_byte(0xC000), Ok(0x14));
    assert_eq!(emu.store(Operand::H, 0xD0), Ok(()));
    assert_eq!(emu.store(Operand::L, 0x01), Ok(()));
    assert_eq!(emu.regs.hl(), 0xD001);
    assert_eq!((emu.load(Operand::H), emu.load(Operand::L)), (Ok(0xD0), Ok(0x01)));
    for i in 0..16u8 {
        let expected = [Operand::B, Operand::C, Operand::D, Operand::E, Operand::H, Operand::L, Operand::HlIndirect, Operand::A][(i % 8) as usize];
        assert_eq!(Operand::from_index(i), expected);
    }
}

#[test]
fn run_returns_when_a_frame_is_completed() {
    let mut emu = machine(&[0x18, 0xFE]);
    assert_eq!(emu.run(), Ok(()));
    assert_eq!((emu.memory.gpu.mode, emu.memory.gpu.line, emu.memory.gpu.modeclock), (GpuMode::VBlank, 143, 0));
    assert_eq!(emu.regs.pc, 0);
    assert!(emu.memory.gpu.take_frame().is_none());
    assert_eq!(emu.run(), Ok(()));
    assert_eq!((emu.memory.gpu.mode, emu.memory.gpu.line), (GpuMode::VBlank, 143));
}

#[test]
fn run_hands_frames_to_an_attached_consumer() {
    let mut emu = machine(&[0x18, 0xFE]);
    emu.memory.gpu.sync();
    assert_eq!(emu.run(), Ok(()));
    let frame = emu.memory.gpu.take_frame().unwrap();
    assert_eq!(frame.len(), 160 * 144 * 4);
    assert!(frame.chunks(4).take(143 * 160).all(|p| p == [0, 0, 0, 255]));
    assert_eq!(emu.run(), Ok(()));
    assert!(emu.memory.gpu.blocked());
    assert!(emu.memory.gpu.take_frame().is_none());
    let pc = emu.regs.pc;
    let clock = emu.memory.gpu.modeclock;
    assert_eq!(emu.run(), Ok(()));
    assert_eq!(emu.step(), Ok(FrameEvent::Blocked));
    assert_eq!((emu.regs.pc, emu.memory.gpu.modeclock), (pc, clock));
    emu.memory.gpu.acknowledge();
    assert_eq!(emu.run(), Ok(()));
    assert!(emu.memory.gpu.take_frame().is_some());
    assert!(!emu.memory.gpu.blocked());
}

#[test]
fn program_paints_what_it_wrote_to_video_ram() {
    let program = [
        0x21, 0x00, 0x80, // LD HL, 0x8000
        0x3E, 0xFF, // LD A, 0xFF
        0x22, // LD (HL+), A
        0x7D, // LD A, L
        0xFE, 0x10, // CP 0x10
        0x3E, 0xFF, // LD A, 0xFF
        0x20, 0xF8, // JR NZ, -8
        0x18, 0xFE, // JR -2
    ];
    let mut emu = machine(&program);
    emu.memory.gpu.sync();
    assert_eq!(emu.run(), Ok(()));
    assert_eq!(emu.regs.hl(), 0x8010);
    let frame = emu.memory.gpu.take_frame().unwrap();
    assert!(frame[640..143 * 640].iter().all(|b| *b == 255));
    assert!(frame[143 * 640..].iter().all(|b| *b == 0));
}

#[test]
fn machine_stays_valid_while_it_runs() {
    let mut emu = machine(&[0x3C, 0xF5, 0xF1, 0x18, 0xFB]);
    assert!(emu.valid());
    for _ in 0..1000 {
        assert_eq!(emu.step(), Ok(FrameEvent::Running));
        assert!(emu.valid());
    }
    emu.regs.f = 0x01;
    assert!(!emu.valid());
}
