use pacman_rs::memory::{decode_address, LoadError, MemoryBus, Region};

#[test]
fn ram_regions_read_back_writes() {
    let mut bus = MemoryBus::new();
    for (addr, v) in [(0x4000u16, 1u8), (0x43FF, 2), (0x4400, 3), (0x47FF, 4), (0x4800, 5), (0x4FEF, 6), (0x4FF0, 7), (0x4FFF, 8)] {
        bus.write(addr, v);
        assert_eq!(bus.read(addr), v);
    }
    assert_eq!(bus.vram()[0], 1);
    assert_eq!(bus.vram()[0x3FF], 2);
    assert_eq!(bus.color_ram()[0], 3);
    assert_eq!(bus.sprite_data()[0], 7);
    assert_eq!(bus.sprite_data()[15], 8);
}

#[test]
fn rom_ignores_writes() {
    let mut bus = MemoryBus::new();
    bus.load_image(&[0xAA, 0xBB]).unwrap();
    bus.write(0x0000, 0x11);
    bus.write(0x3FFF, 0x22);
    assert_eq!(bus.read(0x0000), 0xAA);
    assert_eq!(bus.read(0x0001), 0xBB);
    assert_eq!(bus.read(0x3FFF), 0);
}

#[test]
fn unmapped_addresses_read_zero_and_drop_writes() {
    let mut bus = MemoryBus::new();
    for addr in [0x5100u16, 0x6000, 0x8000, 0xFFFF] {
        bus.write(addr, 0x5A);
        assert_eq!(bus.read(addr), 0);
    }
    assert_eq!(decode_address(0xFFFF), Region::Unmapped);
}

#[test]
fn io_window_latches_writes() {
    let mut bus = MemoryBus::new();
    bus.write(0x5040, 0x0F);
    assert_eq!(bus.read(0x5040), 0xFF);
    assert_eq!(bus.io_latch()[0x40], 0x0F);
    assert_eq!(decode_address(0x50FF), Region::Io);
}

#[test]
fn address_decoding_boundaries() {
    assert_eq!(decode_address(0x3FFF), Region::Rom);
    assert_eq!(decode_address(0x4000), Region::Vram);
    assert_eq!(decode_address(0x4400), Region::ColorRam);
    assert_eq!(decode_address(0x4800), Region::Ram);
    assert_eq!(decode_address(0x4FF0), Region::Sprites);
    assert_eq!(decode_address(0x5000), Region::Io);
    assert_eq!(decode_address(0x5100), Region::Unmapped);
}

#[test]
fn bus_reset_clears_writable_regions_and_keeps_rom() {
    let mut bus = MemoryBus::new();
    bus.load_image(&[9, 8, 7]).unwrap();
    bus.write(0x4000, 1);
    bus.write(0x4ABC, 2);
    bus.write(0x5000, 3);
    bus.reset();
    assert_eq!(bus.read(0x4000), 0);
    assert_eq!(bus.read(0x4ABC), 0);
    assert_eq!(bus.io_latch()[0], 0);
    assert_eq!(bus.read(0x0002), 7);
}

#[test]
fn image_larger_than_rom_is_refused() {
    let mut bus = MemoryBus::new();
    let image = vec![1u8; 0x4001];
    assert_eq!(bus.load_image(&image), Err(LoadError::ImageTooLarge { len: 0x4001 }));
    assert_eq!(bus.read(0), 0);
    let full = vec![3u8; 0x4000];
    assert_eq!(bus.load_image(&full), Ok(()));
    assert_eq!(bus.read(0x3FFF), 3);
}

#[test]
fn input_ports_are_mirrored_over_the_window() {
    let mut bus = MemoryBus::new();
    bus.set_port(0, 0x12);
    bus.set_port(3, 0x34);
    assert_eq!(bus.read(0x5000), 0x12);
    assert_eq!(bus.read(0x503F), 0x12);
    assert_eq!(bus.read(0x5040), 0xFF);
    assert_eq!(bus.read(0x50C0), 0x34);
    assert_eq!(bus.read(0x50FF), 0x34);
    bus.reset();
    assert_eq!(bus.read(0x5000), 0x12);
}
