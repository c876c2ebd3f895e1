//! Laws of the cartridge loader and the mappers.

use vstd::prelude::*;
use vstd::arithmetic::div_mod::lemma_fundamental_div_mod_converse;
use crate::nes::cartridge::{wrapped, Board, MapperView};
use crate::nes::mappers::cnrom::Cnrom;
use crate::nes::mappers::uxrom::Uxrom;
use crate::nes::mappers::{ChrType, PpuTarget};
use crate::nes::loader::{
    has_magic, loaded, loaded_file, CartridgeFileError, FileFormat, Header,
};
use crate::nes::mappers::mmc1::{Mmc1, Mmc1PrgBankingMode};
use crate::nes::mappers::NametableMirroring;

verus! {

/// Every file with an NES 2.0 header that gives both kinds of PRG-RAM a size
/// is turned down for that, whatever its mapper number and whatever follows
/// the header, be it too little for the PRG-ROM and CHR-ROM that the header
/// announces.
#[verifier::rlimit(50)]
pub proof fn law_multiple_prg_ram_types_rejected(bytes: Seq<u8>)
    requires
        bytes.len() >= 16,
        (bytes[7] / 4) % 4 == 2,
        bytes[10] % 16 > 0,
        bytes[10] / 16 > 0,
    ensures
        loaded(bytes) == Err::<MapperView, CartridgeFileError>(
            CartridgeFileError::MultiplePrgRamTypes,
        ),
        has_magic(bytes) ==> loaded_file(bytes) == Err::<MapperView, CartridgeFileError>(
            CartridgeFileError::MultiplePrgRamTypes,
        ),
{
}

/// A cartridge that was read from a file has its pattern tables in ROM or in
/// RAM, never in both; one that was read from an iNES file has them in
/// exactly one of the two. PRG-ROM and CHR-ROM have the sizes that the header
/// announces.
#[verifier::rlimit(50)]
pub proof fn law_loaded_chr_is_rom_or_ram(bytes: Seq<u8>)
    requires
        loaded(bytes) is Ok,
    ensures
        ({
            let cartridge = loaded(bytes)->Ok_0.cartridge;
            let header = Header::parse(bytes);
            &&& cartridge.wf()
            &&& header.format == FileFormat::INes ==> (cartridge.chr_rom.len() == 0)
                != (cartridge.chr_ram.len() == 0)
            &&& cartridge.prg_rom.len() == header.prg_rom_size
            &&& cartridge.chr_rom.len() == header.chr_rom_size
            &&& cartridge.prg_ram.len() == header.prg_ram_size()
            &&& cartridge.chr_ram.len() == header.chr_ram_size()
        }),
{
}

/// The eleventh address line of the console's nametable memory, A10, for a
/// PPU address: address bit 11 under horizontal mirroring, address bit 10
/// under vertical mirroring, and fixed at 0 or 1 for a single screen.
pub open spec fn a10(mirroring: NametableMirroring, address: u16) -> int {
    match mirroring {
        NametableMirroring::Horizontal => (address as int / 0x800) % 2,
        NametableMirroring::Vertical => (address as int / 0x400) % 2,
        NametableMirroring::SingleScreen0 => 0,
        NametableMirroring::SingleScreen1 => 1,
        NametableMirroring::FourScreen => 0,
    }
}

/// The cell of the console's nametable memory that a PPU address selects:
/// A10 above the low ten bits of the address.
pub open spec fn mirror(mirroring: NametableMirroring, address: u16) -> int {
    a10(mirroring, address) * 0x400 + address % 0x400
}

/// In the nametable region every mirroring but four screens selects the cell
/// that A10 and the low ten address bits name.
#[verifier::rlimit(50)]
proof fn lemma_mirror_index(mirroring: NametableMirroring, address: u16)
    requires
        0x2000 <= address < 0x3000,
        mirroring != NametableMirroring::FourScreen,
    ensures
        0 <= mirror(mirroring, address) < 2048,
        mirroring.target(address) == PpuTarget::Vram(mirror(mirroring, address) as u16),
{
}

/// In the nametable region every board routes by its mirroring alone.
#[verifier::rlimit(50)]
proof fn lemma_board_nametable_target(board: Board, address: u16)
    requires
        0x2000 <= address < 0x3000,
    ensures
        board.ppu_target(address) == board.mirroring().target(address),
        board.after_ppu_address(address).mirroring() == board.mirroring(),
{
    assert(address % 0x4000 == address);
}

/// On every board, a PPU read in the nametable region gives the cell of the
/// console's memory that the mirroring in force selects.
#[verifier::rlimit(50)]
pub proof fn law_nametable_reads_are_mirrored(mapper: MapperView, address: u16, vram: Seq<u8>)
    requires
        0x2000 <= address < 0x3000,
        vram.len() == 2048,
        mapper.board.mirroring() != NametableMirroring::FourScreen,
    ensures
        0 <= mirror(mapper.board.mirroring(), address) < 2048,
        mapper.ppu_read(address, vram) == vram[mirror(mapper.board.mirroring(), address)],
        mapper.after_ppu_read(address).cartridge == mapper.cartridge,
        mapper.after_ppu_read(address).board.mirroring() == mapper.board.mirroring(),
{
    lemma_mirror_index(mapper.board.mirroring(), address);
    lemma_board_nametable_target(mapper.board, address);
}

/// The registers after a write to the serial port that is followed by two
/// CPU cycles without one.
pub open spec fn spaced_write(registers: Mmc1, address: u16, value: u8) -> Mmc1 {
    registers.after_cpu_write(address, value).after_tick_cpu().after_tick_cpu()
}

/// Five writes to the serial port, none with bit 7 set and none in the cycle
/// after another, load the lowest bits of the five values, the first written
/// lowest, into the register that bits 14 and 13 of the fifth address choose,
/// and leave the port empty.
#[verifier::rlimit(50)]
pub proof fn law_mmc1_five_writes_load_a_register(
    start: Mmc1,
    addresses: Seq<u16>,
    values: Seq<u8>,
)
    requires
        start.serial_port_idle(),
        !start.written_last_cycle,
        addresses.len() == 5,
        values.len() == 5,
        forall|i: int| 0 <= i < 5 ==> addresses[i] >= 0x8000 && values[i] < 0x80,
    ensures
        ({
            let first = spaced_write(start, addresses[0], values[0]);
            let second = spaced_write(first, addresses[1], values[1]);
            let third = spaced_write(second, addresses[2], values[2]);
            let fourth = spaced_write(third, addresses[3], values[3]);
            let fifth = spaced_write(fourth, addresses[4], values[4]);
            let bits = (values[0] % 2 + 2 * (values[1] % 2) + 4 * (values[2] % 2) + 8 * (values[3]
                % 2) + 16 * (values[4] % 2)) as u8;
            &&& fifth == (Mmc1 {
                written_this_cycle: false,
                written_last_cycle: false,
                ..start.register_loaded(addresses[4], bits)
            })
            &&& fifth.serial_port_idle()
        }),
{
    let first = spaced_write(start, addresses[0], values[0]);
    let second = spaced_write(first, addresses[1], values[1]);
    let third = spaced_write(second, addresses[2], values[2]);
    let fourth = spaced_write(third, addresses[3], values[3]);
    assert(first.shift_register == (values[0] % 2) * 16 && first.shift_register_len == 1);
    assert(second.shift_register == (values[0] % 2) * 8 + (values[1] % 2) * 16
        && second.shift_register_len == 2);
    assert(third.shift_register == (values[0] % 2) * 4 + (values[1] % 2) * 8 + (values[2] % 2) * 16
        && third.shift_register_len == 3);
    assert(fourth.shift_register == (values[0] % 2) * 2 + (values[1] % 2) * 4 + (values[2] % 2) * 8
        + (values[3] % 2) * 16 && fourth.shift_register_len == 4);
}

/// A write to the serial port in the cycle after another such write changes
/// no register.
pub proof fn law_mmc1_consecutive_write_ignored(registers: Mmc1, address: u16, value: u8)
    requires
        registers.written_last_cycle,
    ensures
        registers.after_cpu_write(address, value) == (Mmc1 {
            written_this_cycle: registers.written_this_cycle || address >= 0x8000,
            ..registers
        }),
{
}

/// A write with bit 7 set that is not ignored empties the serial port and
/// fixes the last PRG bank at 0xC000.
pub proof fn law_mmc1_reset(registers: Mmc1, address: u16, value: u8)
    requires
        address >= 0x8000,
        value >= 0x80,
        !registers.written_last_cycle,
    ensures
        registers.after_cpu_write(address, value).serial_port_idle(),
        registers.after_cpu_write(address, value).prg_banking_mode
            == Mmc1PrgBankingMode::Switch16KbLastBankFixed,
{
}

/// A bank selector counts modulo the number of banks: in a memory of `banks`
/// banks of `bank_size` bytes each, the byte that selector and offset reach
/// when the index wraps at the memory's size is the byte at that offset in
/// the bank whose number is the selector modulo `banks`.
#[verifier::rlimit(50)]
pub proof fn law_bank_selector_wraps(
    memory: Seq<u8>,
    bank_size: int,
    banks: int,
    selector: int,
    offset: int,
)
    requires
        bank_size > 0,
        banks > 0,
        memory.len() == banks * bank_size,
        selector >= 0,
        0 <= offset < bank_size,
    ensures
        0 <= (selector % banks) * bank_size + offset < memory.len(),
        wrapped(memory, selector * bank_size + offset) == memory[(selector % banks) * bank_size
            + offset],
{
    let quotient = selector / banks;
    let bank = selector % banks;
    let len = banks * bank_size;
    assert(selector == quotient * banks + bank) by (nonlinear_arith)
        requires
            banks > 0,
            quotient == selector / banks,
            bank == selector % banks,
    ;
    assert(selector * bank_size + offset == quotient * len + (bank * bank_size + offset))
        by (nonlinear_arith)
        requires
            selector == quotient * banks + bank,
            len == banks * bank_size,
    ;
    assert(0 <= bank * bank_size + offset < len) by (nonlinear_arith)
        requires
            0 <= bank < banks,
            0 <= offset < bank_size,
            len == banks * bank_size,
    ;
    lemma_fundamental_div_mod_converse(
        selector * bank_size + offset,
        len,
        quotient,
        bank * bank_size + offset,
    );
}

/// For a number of banks that is a power of two, counting modulo the number
/// of banks is masking with the number of banks less one.
pub proof fn law_power_of_two_modulo_is_mask(selector: u8, banks: u8)
    by (bit_vector)
    requires
        banks > 0,
        banks & ((banks - 1) as u8) == 0,
    ensures
        selector % banks == selector & ((banks - 1) as u8),
{
}

/// On UxROM with a power-of-two number of 16 KiB banks, what the CPU reads in
/// the switchable window is the byte of the bank whose number is the bank
/// register masked to the number of banks: the register may hold more bits
/// than there are banks, and the bits beyond do not count.
#[verifier::rlimit(50)]
pub proof fn law_uxrom_bank_selector_is_masked(
    mapper: MapperView,
    registers: Uxrom,
    banks: u8,
    address: u16,
)
    requires
        mapper.board == Board::Uxrom(registers),
        banks > 0,
        banks & ((banks - 1) as u8) == 0,
        mapper.cartridge.prg_rom.len() == banks * 0x4000,
        0x8000 <= address < 0xC000,
    ensures
        mapper.cpu_read(address) == mapper.cartridge.prg_rom[(registers.prg_bank & ((banks
            - 1) as u8)) * 0x4000 + (address - 0x8000)],
        mapper.cpu_read(address) == (MapperView {
            board: Board::Uxrom(
                Uxrom { prg_bank: registers.prg_bank & ((banks - 1) as u8), ..registers },
            ),
            ..mapper
        }).cpu_read(address),
{
    let selector = registers.prg_bank;
    let masked = selector & ((banks - 1) as u8);
    law_power_of_two_modulo_is_mask(selector, banks);
    assert(masked % banks == masked) by (bit_vector)
        requires
            banks > 0,
            banks & ((banks - 1) as u8) == 0,
            masked == selector & ((banks - 1) as u8),
    ;
    law_bank_selector_wraps(
        mapper.cartridge.prg_rom,
        0x4000,
        banks as int,
        registers.prg_bank as int,
        address - 0x8000,
    );
    law_bank_selector_wraps(
        mapper.cartridge.prg_rom,
        0x4000,
        banks as int,
        masked as int,
        address - 0x8000,
    );
}

/// On CNROM with a power-of-two number of 8 KiB banks, what the PPU reads in
/// the pattern tables is the byte of the bank whose number is the bank
/// register masked to the number of banks.
#[verifier::rlimit(50)]
pub proof fn law_cnrom_bank_selector_is_masked(
    mapper: MapperView,
    registers: Cnrom,
    banks: u8,
    address: u16,
    vram: Seq<u8>,
)
    requires
        mapper.board == Board::Cnrom(registers),
        banks > 0,
        banks & ((banks - 1) as u8) == 0,
        registers.chr_type == ChrType::ROM,
        mapper.cartridge.chr_rom.len() == banks * 0x2000,
        address < 0x2000,
    ensures
        mapper.ppu_read(address, vram) == mapper.cartridge.chr_rom[(registers.chr_bank & ((banks
            - 1) as u8)) * 0x2000 + address],
        mapper.ppu_read(address, vram) == (MapperView {
            board: Board::Cnrom(
                Cnrom { chr_bank: registers.chr_bank & ((banks - 1) as u8), ..registers },
            ),
            ..mapper
        }).ppu_read(address, vram),
{
    let selector = registers.chr_bank;
    let masked = selector & ((banks - 1) as u8);
    law_power_of_two_modulo_is_mask(selector, banks);
    assert(masked % banks == masked) by (bit_vector)
        requires
            banks > 0,
            banks & ((banks - 1) as u8) == 0,
            masked == selector & ((banks - 1) as u8),
    ;
    law_bank_selector_wraps(
        mapper.cartridge.chr_rom,
        0x2000,
        banks as int,
        registers.chr_bank as int,
        address as int,
    );
    law_bank_selector_wraps(
        mapper.cartridge.chr_rom,
        0x2000,
        banks as int,
        masked as int,
        address as int,
    );
}

} // verus!
