use gbemu::exit::VmExit;
use gbemu::mmu::Mmu;

fn boot_image() -> Vec<u8> {
    let mut boot = vec![0u8; 256];
    for i in 0..256 {
        boot[i] = (255 - i) as u8;
    }
    boot
}

fn cartridge() -> Vec<u8> {
    let mut rom = vec![0u8; 32768];
    for i in 0..32768 {
        rom[i] = (i % 251) as u8;
    }
    rom
}

fn decoder() -> Mmu {
    let mut mmu = Mmu::new(boot_image());
    mmu.load_rom(cartridge());
    mmu
}

#[test]
fn boot_overlay_answers_until_locked_out() {
    let mut mmu = decoder();
    assert_eq!(mmu.read_byte(0x0050), Ok(255 - 0x50));
    assert_eq!(mmu.read_byte(0xFF50), Ok(0));
    assert_eq!(mmu.write_byte(0xFF50, 0x01), Ok(()));
    assert_eq!(mmu.read_byte(0x0050), Ok(0x50));
    assert_eq!(mmu.read_byte(0xFF50), Ok(1));
    assert_eq!(mmu.write_byte(0xFF50, 0x01), Ok(()));
    assert_eq!(mmu.read_byte(0x0050), Ok(0x50));
    assert_eq!(mmu.read_byte(0xFF50), Ok(1));
}

#[test]
fn boot_overlay_covers_the_first_256_bytes_only() {
    let mmu = decoder();
    assert_eq!(mmu.read_byte(0x0000), Ok(255));
    assert_eq!(mmu.read_byte(0x00FF), Ok(0));
    assert_eq!(mmu.read_byte(0x0100), Ok((0x100 % 251) as u8));
    assert_eq!(mmu.read_byte(0x7FFF), Ok((0x7FFF % 251) as u8));
}

#[test]
fn boot_lock_ignores_a_write_with_bit_0_clear() {
    let mut mmu = decoder();
    assert_eq!(mmu.write_byte(0xFF50, 0xFE), Ok(()));
    assert_eq!(mmu.read_byte(0xFF50), Ok(0));
    assert_eq!(mmu.read_byte(0x0050), Ok(255 - 0x50));
}

#[test]
fn boot_lock_cannot_be_undone() {
    let mut mmu = decoder();
    assert_eq!(mmu.write_byte(0xFF50, 0xFF), Ok(()));
    assert_eq!(mmu.write_byte(0xFF50, 0x00), Ok(()));
    assert_eq!(mmu.read_byte(0xFF50), Ok(1));
    assert_eq!(mmu.read_byte(0x0000), Ok(0));
    assert!(!mmu.bootrom_lock);
}

#[test]
fn fresh_decoder_holds_a_zero_cartridge() {
    let mut mmu = Mmu::new(boot_image());
    assert_eq!(mmu.read_byte(0x0100), Ok(0));
    assert_eq!(mmu.read_byte(0x7FFF), Ok(0));
    assert_eq!(mmu.write_byte(0xFF50, 1), Ok(()));
    assert_eq!(mmu.read_byte(0x0000), Ok(0));
    assert_eq!(mmu.read_byte(0xC000), Ok(0));
    assert_eq!(mmu.read_byte(0xFFFF), Ok(0));
    assert_eq!(mmu.interrupt_flags, 0);
}

#[test]
fn reads_past_a_short_image_are_refused() {
    let mut mmu = Mmu::new(vec![1, 2, 3]);
    mmu.load_rom(vec![9, 8, 7, 6, 5]);
    assert_eq!(mmu.read_byte(0x0002), Ok(3));
    assert_eq!(mmu.read_byte(0x0003), Err(VmExit::OobRead));
    assert_eq!(mmu.read_byte(0x0100), Err(VmExit::OobRead));
    assert_eq!(mmu.write_byte(0xFF50, 1), Ok(()));
    assert_eq!(mmu.read_byte(0x0003), Ok(6));
    assert_eq!(mmu.read_byte(0x0004), Ok(5));
    assert_eq!(mmu.read_byte(0x0005), Err(VmExit::OobRead));
}

#[test]
fn cartridge_type_is_the_header_byte() {
    let mut mmu = Mmu::new(boot_image());
    let mut rom = vec![0u8; 0x150];
    rom[0x147] = 0x13;
    mmu.load_rom(rom);
    assert_eq!(mmu.cartridge_type(), Some(0x13));
    mmu.load_rom(vec![0u8; 0x147]);
    assert_eq!(mmu.cartridge_type(), None);
}

#[test]
fn work_ram_stores_and_echoes() {
    let mut mmu = decoder();
    assert_eq!(mmu.write_byte(0xC000, 0xAA), Ok(()));
    assert_eq!(mmu.write_byte(0xDFFF, 0xBB), Ok(()));
    assert_eq!(mmu.read_byte(0xC000), Ok(0xAA));
    assert_eq!(mmu.read_byte(0xDFFF), Ok(0xBB));
    assert_eq!(mmu.read_byte(0xE000), Ok(0xAA));
    assert_eq!(mmu.read_byte(0xC001), Ok(0));
    assert_eq!(mmu.write_byte(0xDDFF, 0xCC), Ok(()));
    assert_eq!(mmu.read_byte(0xFDFF), Ok(0xCC));
}

#[test]
fn high_ram_stores() {
    let mut mmu = decoder();
    assert_eq!(mmu.write_byte(0xFF80, 0x11), Ok(()));
    assert_eq!(mmu.write_byte(0xFFFF, 0x22), Ok(()));
    assert_eq!(mmu.read_byte(0xFF80), Ok(0x11));
    assert_eq!(mmu.read_byte(0xFFFF), Ok(0x22));
    assert_eq!(mmu.read_byte(0xFF81), Ok(0));
}

#[test]
fn video_ram_goes_to_the_pixel_processing_unit() {
    let mut mmu = decoder();
    assert_eq!(mmu.write_byte(0x8000, 0x3C), Ok(()));
    assert_eq!(mmu.write_byte(0x9FFF, 0x7E), Ok(()));
    assert_eq!(mmu.read_byte(0x8000), Ok(0x3C));
    assert_eq!(mmu.read_byte(0x9FFF), Ok(0x7E));
    assert_eq!(mmu.gpu.graphics_ram[0], 0x3C);
    assert_eq!(mmu.gpu.graphics_ram[0x1FFF], 0x7E);
}

#[test]
fn cartridge_writes_are_ignored_or_refused() {
    let mut mmu = decoder();
    assert_eq!(mmu.write_byte(0x0000, 0x99), Ok(()));
    assert_eq!(mmu.write_byte(0x3FFF, 0x99), Ok(()));
    assert_eq!(mmu.read_byte(0x3FFF), Ok((0x3FFF % 251) as u8));
    assert_eq!(mmu.write_byte(0x4000, 0x99), Err(VmExit::OobRead));
    assert_eq!(mmu.write_byte(0x7FFF, 0x99), Err(VmExit::OobRead));
    assert_eq!(mmu.read_byte(0x4000), Ok((0x4000 % 251) as u8));
}

#[test]
fn external_ram_reads_and_refuses_writes() {
    let mut mmu = decoder();
    assert_eq!(mmu.read_byte(0xA000), Ok(0));
    assert_eq!(mmu.read_byte(0xBFFF), Ok(0));
    assert_eq!(mmu.write_byte(0xA000, 1), Err(VmExit::OobRead));
    assert_eq!(mmu.write_byte(0xBFFF, 1), Err(VmExit::OobRead));
}

#[test]
fn echo_refuses_writes() {
    let mut mmu = decoder();
    assert_eq!(mmu.write_byte(0xE000, 1), Err(VmExit::OobRead));
    assert_eq!(mmu.write_byte(0xFDFF, 1), Err(VmExit::OobRead));
    assert_eq!(mmu.read_byte(0xC000), Ok(0));
}

#[test]
fn sprite_table_and_unusable_range() {
    let mut mmu = decoder();
    assert_eq!(mmu.write_byte(0xFE00, 1), Ok(()));
    assert_eq!(mmu.write_byte(0xFE9F, 1), Ok(()));
    assert_eq!(mmu.write_byte(0xFEA0, 1), Ok(()));
    assert_eq!(mmu.write_byte(0xFEFF, 1), Ok(()));
    assert_eq!(mmu.read_byte(0xFE00), Err(VmExit::OobRead));
    assert_eq!(mmu.read_byte(0xFE9F), Err(VmExit::OobRead));
    assert_eq!(mmu.read_byte(0xFEA0), Err(VmExit::OobRead));
    assert_eq!(mmu.read_byte(0xFEFF), Err(VmExit::OobRead));
}

#[test]
fn io_stubs_accept_writes_and_read_as_zero() {
    let mut mmu = decoder();
    for address in [
        0xFF00u16, 0xFF01, 0xFF02, 0xFF06, 0xFF10, 0xFF11, 0xFF12, 0xFF13, 0xFF14, 0xFF17, 0xFF19,
        0xFF1A, 0xFF21, 0xFF23, 0xFF24, 0xFF25, 0xFF26, 0xFF7F,
    ] {
        assert_eq!(mmu.write_byte(address, 0xFF), Ok(()));
        assert!(Mmu::writable(address, 0xFF));
        assert_eq!(mmu.read_byte(address), Ok(0));
    }
}

#[test]
fn unhandled_io_registers_are_refused() {
    let mut mmu = decoder();
    for address in [0xFF03u16, 0xFF04, 0xFF05, 0xFF07, 0xFF15, 0xFF16, 0xFF18, 0xFF20, 0xFF22, 0xFF27, 0xFF3F, 0xFF51, 0xFF7E] {
        assert_eq!(mmu.write_byte(address, 0), Err(VmExit::OobRead));
        assert!(!Mmu::writable(address, 0));
    }
    for address in [0xFF03u16, 0xFF0F, 0xFF15, 0xFF27, 0xFF3F, 0xFF51, 0xFF68, 0xFF6B, 0xFF7E] {
        assert_eq!(mmu.read_byte(address), Err(VmExit::OobRead));
    }
}

#[test]
fn interrupt_flag_stores_zero_or_one() {
    let mut mmu = decoder();
    assert_eq!(mmu.write_byte(0xFF0F, 1), Ok(()));
    assert_eq!(mmu.interrupt_flags, 1);
    assert_eq!(mmu.write_byte(0xFF0F, 0), Ok(()));
    assert_eq!(mmu.interrupt_flags, 0);
    assert_eq!(mmu.write_byte(0xFF0F, 1), Ok(()));
    assert_eq!(mmu.write_byte(0xFF0F, 2), Err(VmExit::OobRead));
    assert_eq!(mmu.interrupt_flags, 1);
}

#[test]
fn lcd_registers_route_to_the_pixel_processing_unit() {
    let mut mmu = decoder();
    assert_eq!(mmu.write_byte(0xFF40, 0x91), Ok(()));
    assert_eq!(mmu.read_byte(0xFF40), Ok(0));
    assert_eq!(mmu.read_byte(0xFF41), Ok(2));
    assert_eq!(mmu.write_byte(0xFF42, 0x33), Ok(()));
    assert_eq!(mmu.read_byte(0xFF42), Ok(0x33));
    assert_eq!(mmu.gpu.scroll_y, 0x33);
    assert_eq!(mmu.read_byte(0xFF44), Ok(0));
    assert_eq!(mmu.write_byte(0xFF47, 0xE4), Ok(()));
    assert_eq!(mmu.read_byte(0xFF47), Ok(0));
    assert_eq!(mmu.write_byte(0xFF41, 0), Err(VmExit::OobRead));
    assert_eq!(mmu.write_byte(0xFF43, 0), Err(VmExit::OobRead));
    assert_eq!(mmu.write_byte(0xFF44, 0), Err(VmExit::OobRead));
    assert_eq!(mmu.read_byte(0xFF43), Err(VmExit::OobRead));
    assert_eq!(mmu.read_byte(0xFF4F), Err(VmExit::OobRead));
}

#[test]
fn words_are_little_endian() {
    let mut mmu = decoder();
    assert_eq!(mmu.write_word(0xC100, 0x1234), Ok(()));
    assert_eq!(mmu.read_byte(0xC100), Ok(0x34));
    assert_eq!(mmu.read_byte(0xC101), Ok(0x12));
    assert_eq!(mmu.read_word(0xC100), Ok(0x1234));
    assert_eq!(mmu.write_byte(0xFF50, 1), Ok(()));
    assert_eq!(mmu.read_word(0x0010), Ok(0x1110));
}

#[test]
fn word_at_the_last_address_is_refused() {
    let mut mmu = decoder();
    assert_eq!(mmu.read_word(0xFFFF), Err(VmExit::OobRead));
    assert_eq!(mmu.write_word(0xFFFF, 0x1234), Err(VmExit::OobRead));
    assert_eq!(mmu.read_byte(0xFFFF), Ok(0));
    assert_eq!(mmu.write_word(0xFFFE, 0x1234), Ok(()));
    assert_eq!(mmu.read_word(0xFFFE), Ok(0x1234));
}

#[test]
fn refused_word_write_changes_nothing() {
    let mut mmu = decoder();
    assert_eq!(mmu.write_word(0xDFFF, 0xABCD), Err(VmExit::OobRead));
    assert_eq!(mmu.read_byte(0xDFFF), Ok(0));
    assert_eq!(mmu.write_word(0x7FFF, 0xABCD), Err(VmExit::OobRead));
    assert_eq!(mmu.read_byte(0x8000), Ok(0));
    assert_eq!(mmu.read_word(0xFE9F), Err(VmExit::OobRead));
    assert_eq!(mmu.read_word(0xFDFF), Err(VmExit::OobRead));
}

#[test]
fn mutable_reference_reaches_the_cartridge_store() {
    let mut mmu = decoder();
    match mmu.get_mut_ref_byte(0x0010) {
        Ok(byte) => {
            assert_eq!(*byte, 0x10);
            *byte = 0x77;
        }
        Err(e) => panic!("{:?}", e),
    }
    assert_eq!(mmu.rom[0x10], 0x77);
    assert_eq!(mmu.read_byte(0x0010), Ok(255 - 0x10));
    assert_eq!(mmu.write_byte(0xFF50, 1), Ok(()));
    assert_eq!(mmu.read_byte(0x0010), Ok(0x77));
    assert!(matches!(mmu.get_mut_ref_byte(0x8000), Err(VmExit::OobRead)));
}

#[test]
fn decoder_is_valid_with_its_ram_sizes() {
    let mut mmu = decoder();
    assert!(mmu.valid());
    mmu.load_rom(vec![]);
    assert!(mmu.valid());
    mmu.ram.pop();
    assert!(!mmu.valid());
    mmu.ram.push(0);
    mmu.zero_page_ram.push(0);
    assert!(!mmu.valid());
    mmu.zero_page_ram.pop();
    mmu.mbc0_ram.clear();
    assert!(!mmu.valid());
    mmu.mbc0_ram = vec![0; 8192];
    assert!(mmu.valid());
    mmu.gpu.line = 200;
    assert!(!mmu.valid());
}
