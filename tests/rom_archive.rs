use std::io::{Cursor, Write};

use pacman_rs::memory::MemoryBus;
use pacman_rs::rom::{rom_part_name, RomError};
use pacman_rs::PacmanEmulator;
use zip::write::SimpleFileOptions;
use zip::{CompressionMethod, ZipWriter};

fn archive(entries: &[(&str, Vec<u8>)], method: CompressionMethod) -> Vec<u8> {
    let mut w = ZipWriter::new(Cursor::new(Vec::new()));
    for (name, data) in entries {
        w.start_file(*name, SimpleFileOptions::default().compression_method(method)).unwrap();
        w.write_all(data).unwrap();
    }
    w.finish().unwrap().into_inner()
}

fn parts() -> Vec<(&'static str, Vec<u8>)> {
    (0..4).map(|i| (rom_part_name(i), vec![i as u8 + 1; 0x1000])).collect()
}

#[test]
fn rom_parts_are_concatenated_in_order() {
    let bytes = archive(&parts(), CompressionMethod::Stored);
    let mut bus = MemoryBus::new();
    assert_eq!(bus.load_rom(&bytes), Ok(()));
    assert_eq!(bus.read(0x0000), 1);
    assert_eq!(bus.read(0x1000), 2);
    assert_eq!(bus.read(0x2FFF), 3);
    assert_eq!(bus.read(0x3FFF), 4);
}

#[test]
fn deflated_rom_parts_load() {
    let bytes = archive(&parts(), CompressionMethod::Deflated);
    let mut emu = PacmanEmulator::new();
    assert_eq!(emu.load_rom(&bytes), Ok(()));
    assert_eq!(emu.memory.read(0x3000), 4);
}

#[test]
fn missing_part_is_reported() {
    let mut p = parts();
    p.remove(2);
    let bytes = archive(&p, CompressionMethod::Stored);
    let mut bus = MemoryBus::new();
    assert_eq!(bus.load_rom(&bytes), Err(RomError::PartMissing { part: 2 }));
    assert_eq!(bus.read(0x0000), 0);
}

#[test]
fn short_part_is_reported() {
    let mut p = parts();
    p[1].1 = vec![0; 0x800];
    let bytes = archive(&p, CompressionMethod::Stored);
    let mut bus = MemoryBus::new();
    assert_eq!(bus.load_rom(&bytes), Err(RomError::PartWrongSize { part: 1, len: 0x800 }));
}

#[test]
fn garbage_is_not_an_archive() {
    let mut bus = MemoryBus::new();
    assert_eq!(bus.load_rom(&[1, 2, 3, 4]), Err(RomError::ArchiveUnreadable));
}

#[test]
fn part_names_in_load_order() {
    assert_eq!(rom_part_name(0), "pacman.6e");
    assert_eq!(rom_part_name(1), "pacman.6f");
    assert_eq!(rom_part_name(2), "pacman.6h");
    assert_eq!(rom_part_name(3), "pacman.6j");
}
