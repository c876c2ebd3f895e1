//! Reading a cartridge out of the bytes of an iNES or NES 2.0 file.

use vstd::prelude::*;
use crate::nes::cartridge::{Board, Cartridge, CartridgeView, Mapper, MapperImpl, MapperView};
use crate::nes::mappers::axrom::Axrom;
use crate::nes::mappers::cnrom::Cnrom;
use crate::nes::mappers::mmc1::Mmc1;
use crate::nes::mappers::mmc3::{Mmc3, Mmc3View};
use crate::nes::mappers::nrom::Nrom;
use crate::nes::mappers::uxrom::Uxrom;
use crate::nes::mappers::{ChrType, NametableMirroring};

verus! {

/// Why a file's bytes could not be read to the end.
#[derive(Debug, Clone, Copy, PartialEq, Eq, Structural)]
pub enum ReadError {
    /// The file ends before the bytes that were asked for.
    UnexpectedEof,
}

#[derive(Debug, Clone, Copy, PartialEq, Eq, Structural)]
pub enum CartridgeFileError {
    Io { source: ReadError },
    Format,
    UnsupportedMapper { mapper_number: u8 },
    MultiplePrgRamTypes,
}

#[derive(Debug, Clone, Copy, PartialEq, Eq, Structural)]
pub enum FileFormat {
    INes,
    Nes2Point0,
}

/// The length of the header.
pub const HEADER_LEN: usize = 16;

/// The length of the trainer that may stand between header and PRG-ROM.
pub const TRAINER_LEN: usize = 512;

/// What the 16 bytes of the header say.
#[derive(Debug, Clone, Copy, PartialEq, Eq, Structural)]
pub struct Header {
    /// The size of PRG-ROM in bytes.
    pub prg_rom_size: u32,
    /// The size of CHR-ROM in bytes.
    pub chr_rom_size: u32,
    pub has_trainer: bool,
    pub mapper_number: u8,
    pub nametable_mirroring: NametableMirroring,
    pub format: FileFormat,
    pub sub_mapper_number: u8,
    /// Byte 10, whose nibbles size the two kinds of PRG-RAM in NES 2.0.
    pub prg_ram_shifts: u8,
    /// Byte 11, whose low nibble sizes CHR-RAM in NES 2.0.
    pub chr_ram_shifts: u8,
}

impl Header {
    /// The header that the first 16 bytes of `bytes` encode.
    ///
    /// Byte 4 counts PRG-ROM in units of 16 KiB and byte 5 counts CHR-ROM in
    /// units of 8 KiB, with four more high bits each in the low and the high
    /// nibble of byte 9. Bit 0 of byte 6 chooses vertical over horizontal
    /// mirroring and bit 2 says that a trainer is present. The mapper number
    /// has its high nibble in byte 7 and its low nibble in the high nibble of
    /// byte 6. Bits 3..2 of byte 7 are `10` in an NES 2.0 file, and only there
    /// does the high nibble of byte 8 number the sub-mapper.
    pub open spec fn parse(bytes: Seq<u8>) -> Header {
        let format = if (bytes[7] / 4) % 4 == 2 {
            FileFormat::Nes2Point0
        } else {
            FileFormat::INes
        };
        Header {
            prg_rom_size: (16 * 1024 * ((bytes[9] % 16) * 256 + bytes[4])) as u32,
            chr_rom_size: (8 * 1024 * ((bytes[9] / 16) * 256 + bytes[5])) as u32,
            has_trainer: (bytes[6] / 4) % 2 == 1,
            mapper_number: ((bytes[7] / 16) * 16 + bytes[6] / 16) as u8,
            nametable_mirroring: if bytes[6] % 2 == 1 {
                NametableMirroring::Vertical
            } else {
                NametableMirroring::Horizontal
            },
            format,
            sub_mapper_number: if format == FileFormat::Nes2Point0 {
                bytes[8] / 16
            } else {
                0
            },
            prg_ram_shifts: bytes[10],
            chr_ram_shifts: bytes[11],
        }
    }

    /// Where PRG-ROM starts in the file: after the header and the trainer.
    pub open spec fn prg_rom_start(self) -> usize {
        if self.has_trainer {
            (HEADER_LEN + TRAINER_LEN) as usize
        } else {
            HEADER_LEN
        }
    }

    /// ROM if the file holds any CHR-ROM, else RAM.
    pub open spec fn chr_type(self) -> ChrType {
        if self.chr_rom_size == 0 {
            ChrType::RAM
        } else {
            ChrType::ROM
        }
    }

    /// An NES 2.0 header names both volatile and non-volatile PRG-RAM.
    pub open spec fn multiple_prg_ram_types(self) -> bool {
        self.format == FileFormat::Nes2Point0 && self.prg_ram_shifts % 16 > 0
            && self.prg_ram_shifts / 16 > 0
    }

    /// The size of PRG-RAM in bytes: 8 KiB in an iNES file; in an NES 2.0 file
    /// 64 shifted left by the larger of the two shift counts, or nothing where
    /// both are zero.
    pub open spec fn prg_ram_size(self) -> u32 {
        match self.format {
            FileFormat::Nes2Point0 => {
                let volatile_shift = self.prg_ram_shifts % 16;
                let non_volatile_shift = self.prg_ram_shifts / 16;
                let shift = if volatile_shift >= non_volatile_shift {
                    volatile_shift
                } else {
                    non_volatile_shift
                };
                if shift > 0 {
                    64u32 << shift
                } else {
                    0
                }
            },
            FileFormat::INes => 8192,
        }
    }

    /// The size of CHR-RAM in bytes: none beside CHR-ROM; else 8 KiB in an
    /// iNES file, and in an NES 2.0 file 64 shifted left by the shift count,
    /// or nothing where that is zero.
    pub open spec fn chr_ram_size(self) -> u32 {
        match (self.chr_type(), self.format) {
            (ChrType::RAM, FileFormat::Nes2Point0) => {
                let shift = self.chr_ram_shifts % 16;
                if shift > 0 {
                    64u32 << shift
                } else {
                    0
                }
            },
            (ChrType::RAM, FileFormat::INes) => 8192,
            (ChrType::ROM, _) => 0,
        }
    }

    /// The number of bytes that a file with this header must hold.
    pub open spec fn file_len(self) -> int {
        self.prg_rom_start() + self.prg_rom_size + self.chr_rom_size
    }

    /// The board for the header's mapper number at power-on, or `None` for a
    /// mapper number without a board.
    pub open spec fn board(self) -> Option<Board> {
        let chr_type = self.chr_type();
        let chr_size = if chr_type == ChrType::ROM {
            self.chr_rom_size
        } else {
            self.chr_ram_size()
        };
        match self.mapper_number {
            0 => Some(Board::Nrom(Nrom { chr_type, nametable_mirroring: self.nametable_mirroring })),
            1 => Some(Board::Mmc1(Mmc1::initial(chr_type))),
            2 => Some(
                Board::Uxrom(
                    Uxrom { chr_type, prg_bank: 0, nametable_mirroring: self.nametable_mirroring },
                ),
            ),
            3 => Some(
                Board::Cnrom(
                    Cnrom { chr_type, chr_bank: 0, nametable_mirroring: self.nametable_mirroring },
                ),
            ),
            4 => Some(
                Board::Mmc3(
                    Mmc3View::initial(
                        chr_type,
                        self.prg_rom_size,
                        chr_size,
                        self.sub_mapper_number,
                    ),
                ),
            ),
            7 => Some(
                Board::Axrom(
                    Axrom {
                        chr_type,
                        prg_bank: 0,
                        nametable_mirroring: NametableMirroring::SingleScreen0,
                    },
                ),
            ),
            _ => None,
        }
    }

    pub fn has_multiple_prg_ram_types(&self) -> (multiple: bool)
        ensures
            multiple == self.multiple_prg_ram_types(),
    {
        match self.format {
            FileFormat::Nes2Point0 => self.prg_ram_shifts % 16 > 0 && self.prg_ram_shifts / 16 > 0,
            FileFormat::INes => false,
        }
    }

    pub fn read(bytes: &Vec<u8>) -> (header: Header)
        requires
            bytes.len() >= 16,
        ensures
            header == Header::parse(bytes@),
    {
        let format = if (bytes[7] / 4) % 4 == 2 {
            FileFormat::Nes2Point0
        } else {
            FileFormat::INes
        };
        Header {
            prg_rom_size: 16 * 1024 * ((bytes[9] % 16) as u32 * 256 + bytes[4] as u32),
            chr_rom_size: 8 * 1024 * ((bytes[9] / 16) as u32 * 256 + bytes[5] as u32),
            has_trainer: (bytes[6] / 4) % 2 == 1,
            mapper_number: (bytes[7] / 16) * 16 + bytes[6] / 16,
            nametable_mirroring: if bytes[6] % 2 == 1 {
                NametableMirroring::Vertical
            } else {
                NametableMirroring::Horizontal
            },
            format,
            sub_mapper_number: match format {
                FileFormat::Nes2Point0 => bytes[8] / 16,
                FileFormat::INes => 0,
            },
            prg_ram_shifts: bytes[10],
            chr_ram_shifts: bytes[11],
        }
    }
}

/// `len` zero bytes.
pub open spec fn zeros(len: int) -> Seq<u8> {
    Seq::new(len as nat, |i: int| 0u8)
}

/// The mapper that the bytes of a file give, or the reason why they give
/// none.
///
/// The 16 bytes of the header must be there, else the file ends too early. A
/// header with both kinds of PRG-RAM is turned down as soon as it is read,
/// whatever else the file holds. Then all of PRG-ROM and CHR-ROM must be
/// there, else the file ends too early, and last a mapper number without a
/// board is turned down. PRG-ROM and CHR-ROM are taken from the file in that
/// order, after the header and the trainer; PRG-RAM and CHR-RAM start out as
/// zeros.
pub open spec fn loaded(bytes: Seq<u8>) -> Result<MapperView, CartridgeFileError> {
    let header = Header::parse(bytes);
    if bytes.len() < HEADER_LEN {
        Err(CartridgeFileError::Io { source: ReadError::UnexpectedEof })
    } else if header.multiple_prg_ram_types() {
        Err(CartridgeFileError::MultiplePrgRamTypes)
    } else if bytes.len() < header.file_len() {
        Err(CartridgeFileError::Io { source: ReadError::UnexpectedEof })
    } else {
        match header.board() {
            None => Err(CartridgeFileError::UnsupportedMapper { mapper_number: header.mapper_number }),
            Some(board) => {
                let prg_rom_start = header.prg_rom_start() as int;
                let chr_rom_start = prg_rom_start + header.prg_rom_size;
                Ok(
                    MapperView {
                        cartridge: CartridgeView {
                            prg_rom: bytes.subrange(prg_rom_start, chr_rom_start),
                            prg_ram: zeros(header.prg_ram_size() as int),
                            chr_rom: bytes.subrange(
                                chr_rom_start,
                                chr_rom_start + header.chr_rom_size,
                            ),
                            chr_ram: zeros(header.chr_ram_size() as int),
                        },
                        board,
                    },
                )
            },
        }
    }
}

/// The first four bytes are `NES` and the end-of-file character.
pub open spec fn has_magic(bytes: Seq<u8>) -> bool {
    bytes[0] == 0x4E && bytes[1] == 0x45 && bytes[2] == 0x53 && bytes[3] == 0x1A
}

/// What a whole file gives: it must hold eight bytes to look at, the first
/// four of them must be the magic number, and then it is read as an iNES
/// file.
pub open spec fn loaded_file(bytes: Seq<u8>) -> Result<MapperView, CartridgeFileError> {
    if bytes.len() < 8 {
        Err(CartridgeFileError::Io { source: ReadError::UnexpectedEof })
    } else if !has_magic(bytes) {
        Err(CartridgeFileError::Format)
    } else {
        loaded(bytes)
    }
}

/// Whether `result` is what `expected` asks for: the same error, or a mapper
/// with the expected memories and registers.
pub open spec fn agrees(
    result: Result<Mapper, CartridgeFileError>,
    expected: Result<MapperView, CartridgeFileError>,
) -> bool {
    match (result, expected) {
        (Ok(mapper), Ok(view)) => mapper@ == view,
        (Err(error), Err(expected_error)) => error == expected_error,
        _ => false,
    }
}

/// Copies `len` bytes of `bytes` from `start` on.
fn copy_bytes(bytes: &Vec<u8>, start: usize, len: usize) -> (copy: Vec<u8>)
    requires
        start + len <= bytes.len(),
    ensures
        copy@ == bytes@.subrange(start as int, start + len),
{
    let mut copy: Vec<u8> = Vec::with_capacity(len);
    let mut i: usize = 0;
    while i < len
        invariant
            i <= len,
            start + len <= bytes.len(),
            copy@ == bytes@.subrange(start as int, start + i),
        decreases len - i,
    {
        copy.push(bytes[start + i]);
        i = i + 1;
        proof {
            assert(copy@ =~= bytes@.subrange(start as int, start + i));
        }
    }
    copy
}

/// A memory of `len` zero bytes.
fn zeroed(len: usize) -> (memory: Vec<u8>)
    ensures
        memory@ == zeros(len as int),
{
    let memory: Vec<u8> = vec![0u8; len];
    proof {
        assert(memory@ =~= zeros(len as int));
    }
    memory
}

/// The size of a RAM that the header sizes with a shift count.
fn shifted_size(shift: u8) -> (size: u32)
    requires
        shift < 16,
    ensures
        size == (if shift > 0 {
            64u32 << shift
        } else {
            0
        }),
{
    if shift > 0 {
        64u32 << shift
    } else {
        0
    }
}

/// Reads a cartridge from the bytes of an iNES or NES 2.0 file whose magic
/// number has been checked.
#[verifier::rlimit(50)]
pub fn from_ines_file(bytes: &Vec<u8>) -> (result: Result<Mapper, CartridgeFileError>)
    ensures
        agrees(result, loaded(bytes@)),
{
    if bytes.len() < HEADER_LEN {
        return Err(CartridgeFileError::Io { source: ReadError::UnexpectedEof });
    }
    let header = Header::read(bytes);
    if header.has_multiple_prg_ram_types() {
        return Err(CartridgeFileError::MultiplePrgRamTypes);
    }
    let prg_rom_size = header.prg_rom_size;
    let chr_rom_size = header.chr_rom_size;
    let prg_rom_start_address: usize = if header.has_trainer {
        HEADER_LEN + TRAINER_LEN
    } else {
        HEADER_LEN
    };
    let file_len: u64 = prg_rom_start_address as u64 + prg_rom_size as u64 + chr_rom_size as u64;
    if (bytes.len() as u64) < file_len {
        return Err(CartridgeFileError::Io { source: ReadError::UnexpectedEof });
    }
    let prg_rom = copy_bytes(bytes, prg_rom_start_address, prg_rom_size as usize);
    let chr_rom = copy_bytes(
        bytes,
        prg_rom_start_address + prg_rom_size as usize,
        chr_rom_size as usize,
    );

    let chr_type = if chr_rom_size == 0 {
        ChrType::RAM
    } else {
        ChrType::ROM
    };
    let nametable_mirroring = header.nametable_mirroring;
    let sub_mapper_number = header.sub_mapper_number;

    let prg_ram_size: u32 = match header.format {
        FileFormat::Nes2Point0 => {
            let volatile_shift = header.prg_ram_shifts % 16;
            let non_volatile_shift = header.prg_ram_shifts / 16;
            let shift = if volatile_shift >= non_volatile_shift {
                volatile_shift
            } else {
                non_volatile_shift
            };
            shifted_size(shift)
        },
        FileFormat::INes => 8192,
    };

    let chr_ram_size: u32 = match (chr_type, header.format) {
        (ChrType::RAM, FileFormat::Nes2Point0) => shifted_size(header.chr_ram_shifts % 16),
        (ChrType::RAM, FileFormat::INes) => 8192,
        (ChrType::ROM, _) => 0,
    };

    let chr_size: u32 = match chr_type {
        ChrType::ROM => chr_rom_size,
        ChrType::RAM => chr_ram_size,
    };

    let mapper_number = header.mapper_number;
    if !(mapper_number <= 4 || mapper_number == 7) {
        return Err(CartridgeFileError::UnsupportedMapper { mapper_number });
    }
    let cartridge = Cartridge {
        prg_rom,
        prg_ram: zeroed(prg_ram_size as usize),
        chr_rom,
        chr_ram: zeroed(chr_ram_size as usize),
    };

    let mapper = match mapper_number {
        0 => Mapper::Nrom(MapperImpl { cartridge, data: Nrom::new(chr_type, nametable_mirroring) }),
        1 => Mapper::Mmc1(MapperImpl { cartridge, data: Mmc1::new(chr_type) }),
        2 => Mapper::Uxrom(
            MapperImpl { cartridge, data: Uxrom::new(chr_type, nametable_mirroring) },
        ),
        3 => Mapper::Cnrom(
            MapperImpl { cartridge, data: Cnrom::new(chr_type, nametable_mirroring) },
        ),
        4 => Mapper::Mmc3(
            MapperImpl {
                cartridge,
                data: Mmc3::new(chr_type, prg_rom_size, chr_size, sub_mapper_number),
            },
        ),
        _ => Mapper::Axrom(MapperImpl { cartridge, data: Axrom::new(chr_type) }),
    };
    Ok(mapper)
}

/// Reads a cartridge from the bytes of a whole file.
pub fn from_bytes(bytes: &Vec<u8>) -> (result: Result<Mapper, CartridgeFileError>)
    ensures
        agrees(result, loaded_file(bytes@)),
{
    if bytes.len() < 8 {
        return Err(CartridgeFileError::Io { source: ReadError::UnexpectedEof });
    }
    // The first four bytes should be "NES" and an end-of-file character
    if !(bytes[0] == 0x4E && bytes[1] == 0x45 && bytes[2] == 0x53 && bytes[3] == 0x1A) {
        return Err(CartridgeFileError::Format);
    }
    from_ines_file(bytes)
}

} // verus!
