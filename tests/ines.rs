use nes_core::cpu::Cpu;
use nes_core::ines::{create_mapper, load_ines, parse_ines_header, InesError, InesHeader};
use nes_core::mappers::{Mapper, Mapper000};
use nes_core::memory::Memory;

fn ines_file(prg_units: u8, chr_units: u8, b6: u8, b7: u8) -> Vec<u8> {
    let mut data = vec![0x4E, 0x45, 0x53, 0x1A, prg_units, chr_units, b6, b7, 0, 0, 0, 0, 0, 0, 0, 0];
    let prg_len = prg_units as usize * 0x4000;
    for i in 0..prg_len {
        data.push((i % 251) as u8);
    }
    data.extend(std::iter::repeat(0xCC).take(chr_units as usize * 0x2000));
    data
}

#[test]
fn header_fields() {
    let data = ines_file(2, 1, 0x00, 0x00);
    assert_eq!(
        parse_ines_header(&data),
        Ok(InesHeader { prg_rom_size: 0x8000, chr_rom_size: 0x2000, mapper_id: 0 })
    );
}

#[test]
fn mapper_id_from_upper_nibbles() {
    let data = ines_file(1, 0, 0x31, 0x40);
    assert_eq!(parse_ines_header(&data).map(|h| h.mapper_id), Ok(0x43));
    assert_eq!(load_ines(&data).err(), Some(InesError::UnknownMapper(0x43)));
}

#[test]
fn bad_magic_rejected() {
    let mut data = ines_file(1, 1, 0, 0);
    data[3] = 0x1B;
    assert_eq!(parse_ines_header(&data), Err(InesError::BadMagic));
    assert_eq!(parse_ines_header(&[0x4E, 0x45]), Err(InesError::BadMagic));
    assert_eq!(parse_ines_header(&[]), Err(InesError::BadMagic));
}

#[test]
fn truncated_file_rejected() {
    let mut data = ines_file(1, 1, 0, 0);
    data.pop();
    assert_eq!(parse_ines_header(&data), Err(InesError::Truncated));
    assert_eq!(parse_ines_header(&[0x4E, 0x45, 0x53, 0x1A, 0]), Err(InesError::Truncated));
    assert_eq!(load_ines(&data).err(), Some(InesError::Truncated));
}

#[test]
fn create_mapper_knows_only_nrom() {
    assert!(create_mapper(0).is_ok());
    assert_eq!(create_mapper(1).err(), Some(InesError::UnknownMapper(1)));
}

#[test]
fn sixteen_k_rom_is_mirrored() {
    let data = ines_file(1, 1, 0, 0);
    let mut m = load_ines(&data).unwrap();
    assert_eq!(m.cpu_load8(0x8005), 5);
    assert_eq!(m.cpu_load8(0xC005), 5);
    assert_eq!(m.cpu_load8(0xFFFF), (0x3FFF % 251) as u8);
}

#[test]
fn thirty_two_k_rom_is_not_mirrored() {
    let data = ines_file(2, 1, 0, 0);
    let mut m = load_ines(&data).unwrap();
    assert_eq!(m.cpu_load8(0x8000), 0);
    assert_eq!(m.cpu_load8(0xC000), (0x4000 % 251) as u8);
}

#[test]
fn ram_is_mirrored_and_rom_ignores_writes() {
    let mut m = Mapper000::new();
    m.cpu_store8(0x0801, 0xAB);
    assert_eq!(m.cpu_load8(0x0001), 0xAB);
    assert_eq!(m.cpu_load8(0x1801), 0xAB);
    m.cpu_store8(0x8000, 0x12);
    assert_eq!(m.cpu_load8(0x8000), 0x00);
    assert_eq!(m.cpu_load8(0x4000), 0x00);
}

#[test]
fn overwrite_prg_rom_forces_reset_vector() {
    let data = ines_file(1, 1, 0, 0);
    let mut m = load_ines(&data).unwrap();
    m.overwrite_prg_rom(0xFFFC, 0x00);
    m.overwrite_prg_rom(0xFFFD, 0xC0);
    let mut cpu = Cpu::new();
    cpu.reset(&mut m);
    assert_eq!(cpu.pc(), 0xC000);
}
