use jgenesis_cores::nes::cartridge::{Cartridge, Mapper, MapperImpl};
use jgenesis_cores::nes::loader::{from_bytes, from_ines_file, CartridgeFileError, ReadError};
use jgenesis_cores::nes::mappers::mmc1::{Mmc1, Mmc1ChrBankingMode, Mmc1PrgBankingMode};
use jgenesis_cores::nes::mappers::mmc3::{Mmc3, A12_FILTER};
use jgenesis_cores::nes::mappers::{ChrType, NametableMirroring, PpuWriteToggle};

fn header(prg_banks: u8, chr_banks: u8, flags6: u8, flags7: u8) -> Vec<u8> {
    vec![0x4E, 0x45, 0x53, 0x1A, prg_banks, chr_banks, flags6, flags7, 0, 0, 0, 0, 0, 0, 0, 0]
}

/// A file whose PRG byte at offset i is (i / 0x2000) and whose CHR byte at offset i is
/// 0x80 + (i / 0x400), so that each bank can be told from the others.
fn file(prg_banks: u8, chr_banks: u8, flags6: u8, flags7: u8) -> Vec<u8> {
    let mut bytes = header(prg_banks, chr_banks, flags6, flags7);
    for i in 0..usize::from(prg_banks) * 0x4000 {
        bytes.push((i / 0x2000) as u8);
    }
    for i in 0..usize::from(chr_banks) * 0x2000 {
        bytes.push(0x80 + (i / 0x400) as u8);
    }
    bytes
}

fn load(prg_banks: u8, chr_banks: u8, mapper_number: u8) -> Mapper {
    from_bytes(&file(prg_banks, chr_banks, mapper_number << 4, mapper_number & 0xF0)).unwrap()
}

fn cartridge_of(mapper: &Mapper) -> &Cartridge {
    match mapper {
        Mapper::Nrom(m) => &m.cartridge,
        Mapper::Uxrom(m) => &m.cartridge,
        Mapper::Mmc1(m) => &m.cartridge,
        Mapper::Cnrom(m) => &m.cartridge,
        Mapper::Mmc3(m) => &m.cartridge,
        Mapper::Axrom(m) => &m.cartridge,
    }
}

#[test]
fn ines_mapper_0_with_16_kib_of_prg() {
    let mut bytes =
        vec![0x4E, 0x45, 0x53, 0x1A, 0x01, 0x01, 0x00, 0x00, 0, 0, 0, 0, 0, 0, 0, 0];
    for i in 0..16384usize {
        bytes.push((i % 251) as u8);
    }
    for i in 0..8192usize {
        bytes.push((i % 13) as u8);
    }
    let mut mapper = from_bytes(&bytes).unwrap();

    assert_eq!(mapper.name(), "NROM");
    match &mapper {
        Mapper::Nrom(nrom) => {
            assert_eq!(nrom.cartridge.prg_rom.len(), 16384);
            assert_eq!(nrom.cartridge.chr_rom.len(), 8192);
            assert_eq!(nrom.cartridge.prg_ram.len(), 8192);
            assert_eq!(nrom.cartridge.chr_ram.len(), 0);
            assert_eq!(nrom.data.nametable_mirroring, NametableMirroring::Horizontal);
            assert_eq!(nrom.data.chr_type, ChrType::ROM);
            assert_eq!(&nrom.cartridge.prg_rom[..], &bytes[16..16 + 16384]);
            assert_eq!(&nrom.cartridge.chr_rom[..], &bytes[16 + 16384..]);
        }
        _ => panic!("expected NROM"),
    }
    assert_eq!(mapper.read_cpu_address(0xC000), mapper.read_cpu_address(0x8000));
    for offset in [0u16, 1, 0x1234, 0x3FFF] {
        assert_eq!(
            mapper.read_cpu_address(0xC000 + offset),
            mapper.read_cpu_address(0x8000 + offset)
        );
        assert_eq!(mapper.read_cpu_address(0x8000 + offset), (usize::from(offset) % 251) as u8);
    }
    let vram = [0u8; 2048];
    assert_eq!(mapper.read_ppu_address(0x000E, &vram), 1);
    assert_eq!(mapper.read_cpu_address(0x6000), 0);
    assert_eq!(mapper.read_cpu_address(0x5000), 0xFF);
    assert!(!mapper.interrupt_flag());
}

#[test]
fn loader_errors() {
    assert_eq!(
        from_bytes(&vec![0x4E, 0x45, 0x53]).unwrap_err(),
        CartridgeFileError::Io { source: ReadError::UnexpectedEof }
    );
    assert_eq!(
        from_bytes(&vec![0x4E, 0x45, 0x53, 0x1B, 1, 1, 0, 0, 0, 0, 0, 0, 0, 0, 0, 0]).unwrap_err(),
        CartridgeFileError::Format
    );
    // magic number but no whole header
    assert_eq!(
        from_bytes(&vec![0x4E, 0x45, 0x53, 0x1A, 1, 1, 0, 0, 0, 0]).unwrap_err(),
        CartridgeFileError::Io { source: ReadError::UnexpectedEof }
    );
    // header but not all of PRG and CHR
    let mut short = file(1, 1, 0, 0);
    short.pop();
    assert_eq!(
        from_bytes(&short).unwrap_err(),
        CartridgeFileError::Io { source: ReadError::UnexpectedEof }
    );
    assert_eq!(
        from_bytes(&file(1, 1, 0x50, 0x00)).unwrap_err(),
        CartridgeFileError::UnsupportedMapper { mapper_number: 5 }
    );
    assert_eq!(
        from_bytes(&file(1, 1, 0x60, 0xF0)).unwrap_err(),
        CartridgeFileError::UnsupportedMapper { mapper_number: 0xF6 }
    );
    assert_eq!(
        from_ines_file(&vec![0; 15]).unwrap_err(),
        CartridgeFileError::Io { source: ReadError::UnexpectedEof }
    );
}

#[test]
fn nes2_header_with_both_prg_ram_kinds_is_rejected() {
    for shifts in [0x11u8, 0x7F, 0xF1, 0x29] {
        for mapper_number in [0u8, 1, 4, 9] {
            let mut bytes = file(1, 1, mapper_number << 4, 0x08);
            bytes[10] = shifts;
            assert_eq!(from_bytes(&bytes).unwrap_err(), CartridgeFileError::MultiplePrgRamTypes);
        }
    }
    // the header alone decides: the rest of the file may be missing
    for len in [16usize, 17, 100, 16 + 0x4000, 16 + 0x4000 + 0x1FFF] {
        let mut bytes = file(1, 1, 0x50, 0x08);
        bytes[10] = 0x11;
        bytes.truncate(len);
        assert_eq!(from_bytes(&bytes).unwrap_err(), CartridgeFileError::MultiplePrgRamTypes);
        assert_eq!(from_ines_file(&bytes).unwrap_err(), CartridgeFileError::MultiplePrgRamTypes);
    }
    let mut with_trainer = header(0xFF, 0xFF, 0x04, 0x08);
    with_trainer[9] = 0xFF;
    with_trainer[10] = 0xF1;
    assert_eq!(from_bytes(&with_trainer).unwrap_err(), CartridgeFileError::MultiplePrgRamTypes);
    // a header that ends before byte 10 cannot say so
    let mut cut = header(1, 1, 0, 0x08);
    cut.truncate(10);
    assert_eq!(
        from_bytes(&cut).unwrap_err(),
        CartridgeFileError::Io { source: ReadError::UnexpectedEof }
    );
    // one kind only is fine, and so are both in a file that is not NES 2.0
    let mut bytes = file(1, 1, 0, 0x08);
    bytes[10] = 0x70;
    assert_eq!(cartridge_of(&from_bytes(&bytes).unwrap()).prg_ram.len(), 64 << 7);
    let mut bytes = file(1, 1, 0, 0x00);
    bytes[10] = 0x77;
    assert_eq!(cartridge_of(&from_bytes(&bytes).unwrap()).prg_ram.len(), 8192);
}

#[test]
fn ram_sizes_follow_the_header() {
    // iNES without CHR-ROM: 8 KiB of each RAM
    let mapper = from_bytes(&file(2, 0, 0, 0)).unwrap();
    assert_eq!(cartridge_of(&mapper).prg_ram.len(), 8192);
    assert_eq!(cartridge_of(&mapper).chr_ram.len(), 8192);
    assert_eq!(cartridge_of(&mapper).chr_rom.len(), 0);

    // NES 2.0: shifts
    let mut bytes = file(2, 0, 0, 0x08);
    bytes[10] = 0x09;
    bytes[11] = 0x07;
    let mapper = from_bytes(&bytes).unwrap();
    assert_eq!(cartridge_of(&mapper).prg_ram.len(), 32768);
    assert_eq!(cartridge_of(&mapper).chr_ram.len(), 8192);

    let mut bytes = file(2, 0, 0, 0x08);
    bytes[10] = 0x00;
    bytes[11] = 0xF0;
    let mapper = from_bytes(&bytes).unwrap();
    assert_eq!(cartridge_of(&mapper).prg_ram.len(), 0);
    assert_eq!(cartridge_of(&mapper).chr_ram.len(), 0);

    // NES 2.0 with CHR-ROM: no CHR-RAM whatever byte 11 says
    let mut bytes = file(1, 1, 0, 0x08);
    bytes[11] = 0x07;
    let mapper = from_bytes(&bytes).unwrap();
    assert_eq!(cartridge_of(&mapper).chr_ram.len(), 0);
    assert_eq!(cartridge_of(&mapper).chr_rom.len(), 8192);
}

#[test]
fn trainer_is_skipped_and_size_nibbles_count() {
    let mut bytes = header(1, 0, 0x04, 0);
    bytes.extend(std::iter::repeat(0xEE).take(512));
    bytes.extend(std::iter::repeat(0x42).take(0x4000));
    let mapper = from_bytes(&bytes).unwrap();
    assert_eq!(mapper.read_cpu_address(0x8000), 0x42);
    assert_eq!(cartridge_of(&mapper).prg_rom.len(), 0x4000);

    // byte 9 gives the sizes their high bits: 0x101 PRG units cannot be there
    let mut bytes = file(1, 1, 0, 0x08);
    bytes[9] = 0x01;
    assert_eq!(
        from_bytes(&bytes).unwrap_err(),
        CartridgeFileError::Io { source: ReadError::UnexpectedEof }
    );
}

#[test]
fn mapper_numbers_choose_the_boards() {
    assert_eq!(load(1, 1, 0).name(), "NROM");
    assert_eq!(load(1, 1, 1).name(), "MMC1");
    assert_eq!(load(1, 1, 2).name(), "UxROM");
    assert_eq!(load(1, 1, 3).name(), "CNROM");
    assert_eq!(load(1, 1, 4).name(), "MMC3");
    assert_eq!(load(1, 1, 7).name(), "AxROM");
    let vertical = from_bytes(&file(1, 1, 0x01, 0)).unwrap();
    match vertical {
        Mapper::Nrom(nrom) => {
            assert_eq!(nrom.data.nametable_mirroring, NametableMirroring::Vertical)
        }
        _ => panic!("expected NROM"),
    }
    let mut with_sub_mapper = file(1, 1, 0x40, 0x08);
    with_sub_mapper[8] = 0x40;
    match from_bytes(&with_sub_mapper).unwrap() {
        Mapper::Mmc3(mmc3) => {
            assert_eq!(mmc3.data.sub_mapper_number, 4);
            assert_eq!(mmc3.data.prg_rom_size, 0x4000);
            assert_eq!(mmc3.data.chr_size, 0x2000);
        }
        _ => panic!("expected MMC3"),
    }
}

fn vram_with_marks() -> [u8; 2048] {
    let mut vram = [0u8; 2048];
    for (i, cell) in vram.iter_mut().enumerate() {
        *cell = (i % 253) as u8;
    }
    vram
}

fn documented_mirror(mirroring: NametableMirroring, address: u16) -> usize {
    let a10 = match mirroring {
        NametableMirroring::Horizontal => (address >> 11) & 1,
        NametableMirroring::Vertical => (address >> 10) & 1,
        NametableMirroring::SingleScreen0 => 0,
        NametableMirroring::SingleScreen1 => 1,
        NametableMirroring::FourScreen => unreachable!(),
    };
    usize::from((a10 << 10) | (address & 0x03FF))
}

#[test]
fn nametable_reads_follow_the_mirroring() {
    let vram = vram_with_marks();
    let mut horizontal = from_bytes(&file(1, 1, 0x00, 0)).unwrap();
    let mut vertical = from_bytes(&file(1, 1, 0x01, 0)).unwrap();
    let mut axrom = load(2, 0, 7);
    let mut mmc1 = load(2, 1, 1);
    let mut mmc3 = load(2, 1, 4);
    for address in 0x2000u16..0x3000 {
        let h = documented_mirror(NametableMirroring::Horizontal, address);
        let v = documented_mirror(NametableMirroring::Vertical, address);
        let s0 = documented_mirror(NametableMirroring::SingleScreen0, address);
        assert_eq!(horizontal.read_ppu_address(address, &vram), vram[h]);
        assert_eq!(vertical.read_ppu_address(address, &vram), vram[v]);
        assert_eq!(axrom.read_ppu_address(address, &vram), vram[s0]);
        assert_eq!(mmc1.read_ppu_address(address, &vram), vram[s0]);
        assert_eq!(mmc3.read_ppu_address(address, &vram), vram[v]);
    }
    // second screen on AxROM
    axrom.write_cpu_address(0x8000, 0x10);
    for address in [0x2000u16, 0x23FF, 0x2400, 0x2BCD, 0x2FFF] {
        let s1 = documented_mirror(NametableMirroring::SingleScreen1, address);
        assert_eq!(axrom.read_ppu_address(address, &vram), vram[s1]);
    }
    assert_eq!(NametableMirroring::Horizontal.map_to_vram(0x2800), Some(0x400));
    assert_eq!(NametableMirroring::Horizontal.map_to_vram(0x2400), Some(0x000));
    assert_eq!(NametableMirroring::Vertical.map_to_vram(0x2800), Some(0x000));
    assert_eq!(NametableMirroring::Vertical.map_to_vram(0x2400), Some(0x400));
    assert_eq!(NametableMirroring::SingleScreen1.map_to_vram(0x2005), Some(0x405));
    assert_eq!(NametableMirroring::FourScreen.map_to_vram(0x2005), None);
}

#[test]
fn nametable_writes_land_in_vram() {
    let mut vram = [0u8; 2048];
    let mut mapper = from_bytes(&file(1, 1, 0x01, 0)).unwrap();
    mapper.write_ppu_address(0x2C05, 0x77, &mut vram);
    assert_eq!(vram[0x405], 0x77);
    assert_eq!(mapper.read_ppu_address(0x2405, &vram), 0x77);
    // CHR-ROM takes no writes
    let before = mapper.read_ppu_address(0x0010, &vram);
    mapper.write_ppu_address(0x0010, before.wrapping_add(1), &mut vram);
    assert_eq!(mapper.read_ppu_address(0x0010, &vram), before);
    // CHR-RAM does
    let mut ram = from_bytes(&file(1, 0, 0, 0)).unwrap();
    ram.write_ppu_address(0x1ABC, 0x5A, &mut vram);
    assert_eq!(ram.read_ppu_address(0x1ABC, &vram), 0x5A);
}

#[test]
fn nrom_ignores_cpu_writes() {
    let mut mapper = load(2, 1, 0);
    mapper.write_cpu_address(0x6000, 0x12);
    mapper.write_cpu_address(0x8000, 0x34);
    assert_eq!(mapper.read_cpu_address(0x6000), 0);
    assert_eq!(mapper.read_cpu_address(0x8000), 0);
    assert_eq!(mapper.read_cpu_address(0xE000), 3);
}

#[test]
fn uxrom_switches_the_low_bank_and_fixes_the_last() {
    let mut mapper = load(8, 0, 2);
    assert_eq!(mapper.read_cpu_address(0x8000), 0);
    assert_eq!(mapper.read_cpu_address(0xC000), 14);
    assert_eq!(mapper.read_cpu_address(0xFFFF), 15);
    mapper.write_cpu_address(0x8000, 3);
    assert_eq!(mapper.read_cpu_address(0x8000), 6);
    assert_eq!(mapper.read_cpu_address(0xA000), 7);
    assert_eq!(mapper.read_cpu_address(0xC000), 14);
    // bank numbers wrap at the size of PRG-ROM
    mapper.write_cpu_address(0xFFFF, 9);
    assert_eq!(mapper.read_cpu_address(0x8000), 2);
    // PRG-RAM
    mapper.write_cpu_address(0x6123, 0x99);
    assert_eq!(mapper.read_cpu_address(0x6123), 0x99);
}

#[test]
fn cnrom_switches_chr() {
    let vram = [0u8; 2048];
    let mut mapper = load(2, 4, 3);
    assert_eq!(mapper.read_ppu_address(0x0000, &vram), 0x80);
    assert_eq!(mapper.read_ppu_address(0x1FFF, &vram), 0x87);
    mapper.write_cpu_address(0x8000, 2);
    assert_eq!(mapper.read_ppu_address(0x0000, &vram), 0x90);
    assert_eq!(mapper.read_ppu_address(0x0400, &vram), 0x91);
    mapper.write_cpu_address(0x8000, 5);
    assert_eq!(mapper.read_ppu_address(0x0000, &vram), 0x88);
    assert_eq!(mapper.read_cpu_address(0x8000), 0);
    assert_eq!(mapper.read_cpu_address(0xFFFF), 3);
}

#[test]
fn axrom_switches_32_kib_and_the_screen() {
    let mut mapper = load(8, 0, 7);
    assert_eq!(mapper.read_cpu_address(0x8000), 0);
    assert_eq!(mapper.read_cpu_address(0xE000), 3);
    mapper.write_cpu_address(0x8000, 0x12);
    assert_eq!(mapper.read_cpu_address(0x8000), 8);
    assert_eq!(mapper.read_cpu_address(0xE000), 11);
    match &mapper {
        Mapper::Axrom(axrom) => {
            assert_eq!(axrom.data.nametable_mirroring, NametableMirroring::SingleScreen1);
            assert_eq!(axrom.data.prg_bank, 2);
        }
        _ => panic!("expected AxROM"),
    }
    // only the low three bits number the bank
    mapper.write_cpu_address(0x8000, 0x0B);
    assert_eq!(mapper.read_cpu_address(0x8000), 12);
}

/// Writes the five low bits of `value` to `address`, leaving cycles between the writes.
fn mmc1_load(mapper: &mut Mapper, address: u16, value: u8) {
    for bit in 0..5 {
        mapper.write_cpu_address(address, (value >> bit) & 1);
        mapper.tick_cpu();
        mapper.tick_cpu();
    }
}

fn mmc1_data(mapper: &Mapper) -> Mmc1 {
    match mapper {
        Mapper::Mmc1(mmc1) => mmc1.data,
        _ => panic!("expected MMC1"),
    }
}

#[test]
fn mmc1_five_writes_load_the_register_of_the_fifth_address() {
    for value in 0u8..32 {
        let mut mapper = load(16, 4, 1);
        // the first four addresses do not matter
        mapper.write_cpu_address(0x8000, value & 1);
        mapper.tick_cpu();
        mapper.tick_cpu();
        mapper.write_cpu_address(0xA000, (value >> 1) & 1);
        mapper.tick_cpu();
        mapper.tick_cpu();
        mapper.write_cpu_address(0xC000, 0x7E | ((value >> 2) & 1));
        mapper.tick_cpu();
        mapper.tick_cpu();
        mapper.write_cpu_address(0x9FFF, (value >> 3) & 1);
        mapper.tick_cpu();
        mapper.tick_cpu();
        mapper.write_cpu_address(0xE000, (value >> 4) & 1);
        let data = mmc1_data(&mapper);
        assert_eq!(data.prg_bank, value);
        assert_eq!(data.chr_bank_0, 0);
        assert_eq!(data.chr_bank_1, 0);
        assert_eq!(data.shift_register_len, 0);
        assert_eq!(data.shift_register, 0);
    }
    let mut mapper = load(16, 4, 1);
    mmc1_load(&mut mapper, 0xA000, 0x15);
    mmc1_load(&mut mapper, 0xDFFF, 0x0A);
    mmc1_load(&mut mapper, 0x8000, 0x1E);
    let data = mmc1_data(&mapper);
    assert_eq!(data.chr_bank_0, 0x15);
    assert_eq!(data.chr_bank_1, 0x0A);
    assert_eq!(data.nametable_mirroring, NametableMirroring::Vertical);
    assert_eq!(data.prg_banking_mode, Mmc1PrgBankingMode::Switch16KbLastBankFixed);
    assert_eq!(data.chr_banking_mode, Mmc1ChrBankingMode::Two4Kb);
}

#[test]
fn mmc1_control_register_fields() {
    let mut mapper = load(16, 4, 1);
    let initial = mmc1_data(&mapper);
    assert_eq!(initial, Mmc1::new(ChrType::ROM));
    assert_eq!(initial.prg_banking_mode, Mmc1PrgBankingMode::Switch16KbLastBankFixed);
    assert_eq!(initial.chr_banking_mode, Mmc1ChrBankingMode::Single8Kb);
    assert_eq!(initial.nametable_mirroring, NametableMirroring::SingleScreen0);

    mmc1_load(&mut mapper, 0x8000, 0b0_00_01);
    assert_eq!(mmc1_data(&mapper).nametable_mirroring, NametableMirroring::SingleScreen1);
    assert_eq!(mmc1_data(&mapper).prg_banking_mode, Mmc1PrgBankingMode::Switch32Kb);
    mmc1_load(&mut mapper, 0x8000, 0b0_01_11);
    assert_eq!(mmc1_data(&mapper).nametable_mirroring, NametableMirroring::Horizontal);
    assert_eq!(mmc1_data(&mapper).prg_banking_mode, Mmc1PrgBankingMode::Switch32Kb);
    mmc1_load(&mut mapper, 0x8000, 0b0_10_10);
    assert_eq!(mmc1_data(&mapper).nametable_mirroring, NametableMirroring::Vertical);
    assert_eq!(mmc1_data(&mapper).prg_banking_mode, Mmc1PrgBankingMode::Switch16KbFirstBankFixed);
}

#[test]
fn mmc1_prg_and_chr_banking() {
    let vram = [0u8; 2048];
    let mut mapper = load(16, 4, 1);
    // power-on: switchable bank at 0x8000, last bank at 0xC000
    assert_eq!(mapper.read_cpu_address(0x8000), 0);
    assert_eq!(mapper.read_cpu_address(0xC000), 30);
    mmc1_load(&mut mapper, 0xE000, 5);
    assert_eq!(mapper.read_cpu_address(0x8000), 10);
    assert_eq!(mapper.read_cpu_address(0xBFFF), 11);
    assert_eq!(mapper.read_cpu_address(0xC000), 30);
    // first bank fixed
    mmc1_load(&mut mapper, 0x8000, 0b0_10_00);
    assert_eq!(mapper.read_cpu_address(0x8000), 0);
    assert_eq!(mapper.read_cpu_address(0xC000), 10);
    // 32 KiB: the lowest bit of the bank number is dropped
    mmc1_load(&mut mapper, 0x8000, 0b0_00_00);
    assert_eq!(mapper.read_cpu_address(0x8000), 8);
    assert_eq!(mapper.read_cpu_address(0xE000), 11);

    // 8 KiB CHR: the lowest bit of CHR bank 0 is dropped
    mmc1_load(&mut mapper, 0xA000, 3);
    assert_eq!(mapper.read_ppu_address(0x0000, &vram), 0x88);
    assert_eq!(mapper.read_ppu_address(0x1C00, &vram), 0x8F);
    // two 4 KiB banks
    mmc1_load(&mut mapper, 0x8000, 0b1_00_00);
    mmc1_load(&mut mapper, 0xC000, 6);
    assert_eq!(mapper.read_ppu_address(0x0000, &vram), 0x8C);
    assert_eq!(mapper.read_ppu_address(0x1000, &vram), 0x98);
    // PRG-RAM
    mapper.write_cpu_address(0x7FFF, 0x3C);
    assert_eq!(mapper.read_cpu_address(0x7FFF), 0x3C);
}

#[test]
fn mmc1_ignores_a_write_in_the_cycle_after_a_write() {
    let mut mapper = load(16, 4, 1);
    mapper.write_cpu_address(0x8000, 1);
    mapper.tick_cpu();
    mapper.write_cpu_address(0x8000, 1);
    assert_eq!(mmc1_data(&mapper).shift_register_len, 1);
    mapper.tick_cpu();
    // the ignored write counts as a write all the same
    mapper.write_cpu_address(0x8000, 1);
    assert_eq!(mmc1_data(&mapper).shift_register_len, 1);
    mapper.tick_cpu();
    mapper.tick_cpu();
    mapper.write_cpu_address(0x8000, 1);
    assert_eq!(mmc1_data(&mapper).shift_register_len, 2);
    assert_eq!(mmc1_data(&mapper).shift_register, 0b11000);
}

#[test]
fn mmc1_reset_empties_the_port_and_fixes_the_last_bank() {
    let mut mapper = load(16, 4, 1);
    mmc1_load(&mut mapper, 0x8000, 0b0_00_10);
    mapper.write_cpu_address(0x8000, 1);
    mapper.tick_cpu();
    mapper.tick_cpu();
    mapper.write_cpu_address(0xFFFF, 0x80);
    let data = mmc1_data(&mapper);
    assert_eq!(data.shift_register_len, 0);
    assert_eq!(data.shift_register, 0);
    assert_eq!(data.prg_banking_mode, Mmc1PrgBankingMode::Switch16KbLastBankFixed);
    assert_eq!(data.nametable_mirroring, NametableMirroring::Vertical);
}

fn a12_rise(mapper: &mut Mapper) {
    mapper.process_ppu_addr_increment(0x0000);
    for _ in 0..A12_FILTER {
        mapper.tick();
    }
    mapper.process_ppu_addr_increment(0x1000);
}

#[test]
fn mmc3_scanline_irq() {
    let mut mapper = load(4, 8, 4);
    mapper.write_cpu_address(0xC000, 5);
    mapper.write_cpu_address(0xE001, 0);
    for _ in 0..5 {
        a12_rise(&mut mapper);
        assert!(!mapper.interrupt_flag());
    }
    a12_rise(&mut mapper);
    assert!(mapper.interrupt_flag());
    // the flag stays until it is acknowledged
    a12_rise(&mut mapper);
    assert!(mapper.interrupt_flag());
    mapper.write_cpu_address(0xE000, 0);
    assert!(!mapper.interrupt_flag());
}

#[test]
fn mmc3_counter_needs_enabled_interrupts_and_clean_edges() {
    let mut mapper = load(4, 8, 4);
    mapper.write_cpu_address(0xC000, 1);
    // disabled: the counter runs, the flag stays down
    for _ in 0..4 {
        a12_rise(&mut mapper);
    }
    assert!(!mapper.interrupt_flag());

    let mut mapper = load(4, 8, 4);
    mapper.write_cpu_address(0xC000, 1);
    mapper.write_cpu_address(0xE001, 0);
    // rises after too short a low time do not count
    for _ in 0..10 {
        mapper.process_ppu_addr_increment(0x0000);
        for _ in 0..A12_FILTER - 1 {
            mapper.tick();
        }
        mapper.process_ppu_addr_increment(0x1000);
    }
    assert!(!mapper.interrupt_flag());
    a12_rise(&mut mapper);
    assert!(!mapper.interrupt_flag());
    a12_rise(&mut mapper);
    assert!(mapper.interrupt_flag());
}

#[test]
fn mmc3_sees_address_line_12_in_port_writes_and_ppu_accesses() {
    let vram = [0u8; 2048];
    let mut mapper = load(4, 8, 4);
    mapper.write_cpu_address(0xC000, 0);
    mapper.write_cpu_address(0xE001, 0);
    // the second write of a pair does not carry the line
    for _ in 0..A12_FILTER {
        mapper.tick();
    }
    mapper.process_ppu_addr_update(0x10, PpuWriteToggle::Second);
    assert!(!mapper.interrupt_flag());
    mapper.process_ppu_addr_update(0x10, PpuWriteToggle::First);
    assert!(mapper.interrupt_flag());
    mapper.write_cpu_address(0xE000, 0);
    mapper.write_cpu_address(0xE001, 0);
    assert!(!mapper.interrupt_flag());
    mapper.read_ppu_address(0x0FFF, &vram);
    for _ in 0..A12_FILTER {
        mapper.tick();
    }
    mapper.read_ppu_address(0x1000, &vram);
    assert!(mapper.interrupt_flag());
}

#[test]
fn mmc3_reload_and_the_alternate_sub_mapper() {
    // latch 0 on the usual board: every clock raises the flag
    let mut usual = load(4, 8, 4);
    usual.write_cpu_address(0xC000, 0);
    usual.write_cpu_address(0xE001, 0);
    a12_rise(&mut usual);
    assert!(usual.interrupt_flag());

    // the alternate board wants the counter to have run down or been reloaded by hand
    let mut bytes = file(4, 8, 0x40, 0x08);
    bytes[8] = 0x40;
    let mut alternate = from_bytes(&bytes).unwrap();
    alternate.write_cpu_address(0xC000, 0);
    alternate.write_cpu_address(0xE001, 0);
    a12_rise(&mut alternate);
    assert!(!alternate.interrupt_flag());
    alternate.write_cpu_address(0xC001, 0);
    a12_rise(&mut alternate);
    assert!(alternate.interrupt_flag());

    // 0xC001 makes the next clock start over from the latch
    let mut mapper = load(4, 8, 4);
    mapper.write_cpu_address(0xC000, 3);
    mapper.write_cpu_address(0xE001, 0);
    a12_rise(&mut mapper);
    a12_rise(&mut mapper);
    mapper.write_cpu_address(0xC001, 0);
    a12_rise(&mut mapper);
    match &mapper {
        Mapper::Mmc3(mmc3) => assert_eq!(mmc3.data.irq_counter, 3),
        _ => panic!("expected MMC3"),
    }
}

#[test]
fn mmc3_prg_banking() {
    let mut mapper = load(8, 8, 4);
    // R6 = 5, R7 = 9
    mapper.write_cpu_address(0x8000, 6);
    mapper.write_cpu_address(0x8001, 5);
    mapper.write_cpu_address(0x8000, 7);
    mapper.write_cpu_address(0x8001, 9);
    assert_eq!(mapper.read_cpu_address(0x8000), 5);
    assert_eq!(mapper.read_cpu_address(0xA000), 9);
    assert_eq!(mapper.read_cpu_address(0xC000), 14);
    assert_eq!(mapper.read_cpu_address(0xE000), 15);
    // swapped roles
    mapper.write_cpu_address(0x8000, 0x40);
    assert_eq!(mapper.read_cpu_address(0x8000), 14);
    assert_eq!(mapper.read_cpu_address(0xA000), 9);
    assert_eq!(mapper.read_cpu_address(0xC000), 5);
    assert_eq!(mapper.read_cpu_address(0xE000), 15);
    // PRG-RAM and mirroring
    mapper.write_cpu_address(0x6000, 0x21);
    assert_eq!(mapper.read_cpu_address(0x6000), 0x21);
    mapper.write_cpu_address(0xA000, 1);
    match &mapper {
        Mapper::Mmc3(mmc3) => {
            assert_eq!(mmc3.data.nametable_mirroring, NametableMirroring::Horizontal)
        }
        _ => panic!("expected MMC3"),
    }
}

#[test]
fn mmc3_chr_banking() {
    let vram = [0u8; 2048];
    let mut mapper = load(4, 8, 4);
    let banks: [u8; 6] = [0x11, 0x22, 0x05, 0x06, 0x07, 0x08];
    for (register, bank) in banks.iter().enumerate() {
        mapper.write_cpu_address(0x8000, register as u8);
        mapper.write_cpu_address(0x8001, *bank);
    }
    let expected: [(u16, u8); 8] = [
        (0x0000, 0x10),
        (0x0400, 0x11),
        (0x0800, 0x22),
        (0x0C00, 0x23),
        (0x1000, 0x05),
        (0x1400, 0x06),
        (0x1800, 0x07),
        (0x1C00, 0x08),
    ];
    for (address, bank) in expected {
        assert_eq!(mapper.read_ppu_address(address, &vram), 0x80 + bank);
        assert_eq!(mapper.read_ppu_address(address + 0x3FF, &vram), 0x80 + bank);
    }
    // inverted layout
    mapper.write_cpu_address(0x8000, 0x80);
    for (address, bank) in expected {
        assert_eq!(mapper.read_ppu_address(address ^ 0x1000, &vram), 0x80 + bank);
    }
}

#[test]
fn boards_can_be_built_by_hand() {
    let cartridge = Cartridge {
        prg_rom: vec![7; 0x8000],
        prg_ram: vec![0; 0x2000],
        chr_rom: Vec::new(),
        chr_ram: vec![0; 0x2000],
    };
    let mut mapper = Mapper::Mmc3(MapperImpl {
        cartridge,
        data: Mmc3::new(ChrType::RAM, 0x8000, 0x2000, 0),
    });
    let mut vram = [0u8; 2048];
    assert_eq!(mapper.read_cpu_address(0xFFFC), 7);
    mapper.write_ppu_address(0x0123, 0x45, &mut vram);
    assert_eq!(mapper.read_ppu_address(0x0123, &vram), 0x45);
    // an empty memory answers like an open bus
    let empty = Cartridge {
        prg_rom: Vec::new(),
        prg_ram: Vec::new(),
        chr_rom: Vec::new(),
        chr_ram: Vec::new(),
    };
    let mut mapper = Mapper::Mmc1(MapperImpl { cartridge: empty, data: Mmc1::new(ChrType::RAM) });
    assert_eq!(mapper.read_cpu_address(0x8000), 0xFF);
    assert_eq!(mapper.read_cpu_address(0x6000), 0xFF);
    assert_eq!(mapper.read_ppu_address(0x0000, &vram), 0xFF);
    mapper.write_cpu_address(0x6000, 1);
    mapper.write_ppu_address(0x0000, 1, &mut vram);
}
