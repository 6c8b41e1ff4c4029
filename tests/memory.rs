use rustyboy::cartridge::{Cartridge, Mapper};
use rustyboy::error::EmuError;
use rustyboy::memory::Bus;
use rustyboy::ppu::Ppu;

fn image(code: u8) -> Vec<u8> {
    let mut data = vec![0u8; 0x8000];
    data[0] = 0xAB;
    data[0x147] = code;
    data
}

#[test]
fn echo_mirrors_work_ram() {
    let mut bus = Bus::new(image(0x00)).unwrap();
    for k in [0u16, 0x0123, 0x1DFF] {
        bus.write_byte(0xC000 + k, 0x5A).unwrap();
        assert_eq!(bus.get_address(0xE000 + k), Ok(0x5A));
        bus.write_byte(0xE000 + k, 0xA5).unwrap();
        assert_eq!(bus.get_address(0xC000 + k), Ok(0xA5));
    }
}

#[test]
fn boot_rom_covers_address_zero() {
    let mut bus = Bus::new(image(0x00)).unwrap();
    assert_eq!(bus.get_address(0x0000), Ok(0x31));
    assert_eq!(bus.get_address(0x00FF), Ok(0x50));
    bus.finish_boot();
    assert_eq!(bus.get_address(0x0000), Ok(0xAB));
}

#[test]
fn mapper_rom_only() {
    let cart = Cartridge::new(image(0x00)).unwrap();
    assert_eq!(cart.mapper, Mapper::RomOnly);
}

#[test]
fn mapper_mbc3_ram_battery() {
    let cart = Cartridge::new(image(0x13)).unwrap();
    assert_eq!(cart.mapper, Mapper::Mbc3 { timer: false, ram: true, battery: true });
}

#[test]
fn mapper_unassigned_code() {
    let r = Cartridge::new(image(0x21));
    assert!(matches!(r, Err(EmuError::UnsupportedMapper { header_code: 0x21 })));
}

#[test]
fn mapper_table_families() {
    assert_eq!(Mapper::from_header(0x03), Some(Mapper::Mbc1 { ram: true, battery: true }));
    assert_eq!(Mapper::from_header(0x05), Some(Mapper::Mbc2 { battery: false }));
    assert_eq!(Mapper::from_header(0x0F), Some(Mapper::Mbc3 { timer: true, ram: false, battery: true }));
    assert_eq!(Mapper::from_header(0x1E), Some(Mapper::Mbc5 { rumble: true, ram: true, battery: true }));
    assert_eq!(Mapper::from_header(0x20), Some(Mapper::Mbc6));
    assert_eq!(Mapper::from_header(0x22), Some(Mapper::Mbc7));
    assert_eq!(Mapper::from_header(0xFC), Some(Mapper::PocketCamera));
    assert_eq!(Mapper::from_header(0xFF), Some(Mapper::HuC1));
    assert_eq!(Mapper::from_header(0x04), None);
    assert_eq!(Mapper::from_header(0x08), None);
}

#[test]
fn truncated_image_is_rejected() {
    let r = Cartridge::new(vec![0u8; 0x100]);
    assert!(matches!(r, Err(EmuError::CartridgeLoadError { len: 0x100 })));
    assert!(matches!(Bus::new(vec![]), Err(EmuError::CartridgeLoadError { len: 0 })));
}

#[test]
fn banked_mapper_fails_on_access() {
    let mut bus = Bus::new(image(0x01)).unwrap();
    bus.finish_boot();
    assert_eq!(bus.get_address(0x0150), Err(EmuError::UnsupportedMapper { header_code: 0x01 }));
    assert_eq!(bus.write_byte(0x2000, 0x01), Err(EmuError::UnsupportedMapper { header_code: 0x01 }));
    assert_eq!(bus.get_address(0xC000), Ok(0));
}

#[test]
fn rom_only_ignores_writes_and_has_no_ram() {
    let mut bus = Bus::new(image(0x00)).unwrap();
    bus.finish_boot();
    assert_eq!(bus.write_byte(0x0000, 0x11), Ok(()));
    assert_eq!(bus.get_address(0x0000), Ok(0xAB));
    assert_eq!(bus.get_address(0xA000), Ok(0xFF));
    assert_eq!(bus.write_byte(0xA000, 0x11), Ok(()));
}

#[test]
fn prohibited_window_is_reported() {
    let mut bus = Bus::new(image(0x00)).unwrap();
    assert_eq!(bus.get_address(0xFEA0), Err(EmuError::IllegalMemoryAccess { addr: 0xFEA0 }));
    assert_eq!(bus.write_byte(0xFEFF, 1), Err(EmuError::IllegalMemoryAccess { addr: 0xFEFF }));
}

#[test]
fn regions_hold_their_bytes() {
    let mut bus = Bus::new(image(0x00)).unwrap();
    for addr in [0x8000u16, 0x9FFF, 0xFE00, 0xFE9F, 0xFF00, 0xFF7F, 0xFF80, 0xFFFE, 0xFFFF] {
        bus.write_byte(addr, 0x42).unwrap();
        assert_eq!(bus.get_address(addr), Ok(0x42));
    }
    assert_eq!(bus.ie_reg, 0x42);
    assert_eq!(bus.vram[0x1FFF], 0x42);
}

#[test]
fn ppu_counts_dots() {
    let mut ppu = Ppu::new();
    ppu.clock();
    ppu.clock();
    assert_eq!(ppu.clocks, 2);
}
