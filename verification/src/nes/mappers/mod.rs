//! What the boards share: where CHR lives, how the nametables are mirrored,
//! and the cells that an address can select.

pub mod axrom;
pub mod cnrom;
pub mod mmc1;
pub mod mmc3;
pub mod nrom;
pub mod uxrom;

use vstd::prelude::*;

verus! {

/// What an address gives when nothing answers it.
pub const OPEN_BUS: u8 = 0xFF;

/// Which of the two writes that set the PPU's address a write is.
#[derive(Debug, Clone, Copy, PartialEq, Eq, Structural)]
pub enum PpuWriteToggle {
    First,
    Second,
}

/// Whether the pattern tables are ROM or RAM.
#[derive(Debug, Clone, Copy, PartialEq, Eq, Structural)]
pub enum ChrType {
    ROM,
    RAM,
}

/// The cell that a CPU address selects.
#[derive(Debug, Clone, Copy, PartialEq, Eq, Structural)]
pub enum CpuTarget {
    /// No cell at all.
    Unmapped,
    /// A cell of PRG-RAM; the index wraps at the memory's size.
    PrgRam(usize),
    /// A cell of PRG-ROM; the index wraps at the memory's size.
    PrgRom(usize),
}

/// The cell that a PPU address selects.
#[derive(Debug, Clone, Copy, PartialEq, Eq, Structural)]
pub enum PpuTarget {
    /// No cell at all.
    Unmapped,
    /// A cell of CHR-ROM; the index wraps at the memory's size.
    ChrRom(usize),
    /// A cell of CHR-RAM; the index wraps at the memory's size.
    ChrRam(usize),
    /// A cell of the console's 2 KiB of nametable memory.
    Vram(u16),
}

impl ChrType {
    /// The CHR cell with the given index.
    pub open spec fn target(self, index: usize) -> PpuTarget {
        match self {
            ChrType::ROM => PpuTarget::ChrRom(index),
            ChrType::RAM => PpuTarget::ChrRam(index),
        }
    }

    pub fn to_target(self, index: usize) -> (target: PpuTarget)
        ensures
            target == self.target(index),
    {
        match self {
            ChrType::ROM => PpuTarget::ChrRom(index),
            ChrType::RAM => PpuTarget::ChrRam(index),
        }
    }
}

/// How the four nametables of the PPU's address space share the console's
/// two.
#[derive(Debug, Clone, Copy, PartialEq, Eq, Structural)]
pub enum NametableMirroring {
    Horizontal,
    Vertical,
    SingleScreen0,
    SingleScreen1,
    /// Four separate nametables, which need memory that none of the supported
    /// boards carries: nothing is routed to the console's memory.
    FourScreen,
}

impl NametableMirroring {
    /// The cell of the console's nametable memory that a PPU address in the
    /// nametable region selects. The low ten bits address within a nametable;
    /// the eleventh bit, A10, is address bit 11 under horizontal mirroring,
    /// address bit 10 under vertical mirroring, and fixed for a single screen.
    pub open spec fn vram_index(self, address: u16) -> Option<u16> {
        let relative = address % 0x1000;
        match self {
            NametableMirroring::Horizontal => Some(
                (((relative / 0x800) % 2) * 0x400 + relative % 0x400) as u16,
            ),
            NametableMirroring::Vertical => Some(relative % 0x800),
            NametableMirroring::SingleScreen0 => Some(relative % 0x400),
            NametableMirroring::SingleScreen1 => Some((0x400 + relative % 0x400) as u16),
            NametableMirroring::FourScreen => None,
        }
    }

    /// The target of a PPU address in the nametable region.
    pub open spec fn target(self, address: u16) -> PpuTarget {
        match self.vram_index(address) {
            Some(index) => PpuTarget::Vram(index),
            None => PpuTarget::Unmapped,
        }
    }

    pub fn map_to_vram(self, address: u16) -> (index: Option<u16>)
        ensures
            index == self.vram_index(address),
            index matches Some(cell) ==> cell < 2048,
    {
        let relative = address % 0x1000;
        match self {
            NametableMirroring::Horizontal => Some(((relative / 0x800) % 2) * 0x400 + relative % 0x400),
            NametableMirroring::Vertical => Some(relative % 0x800),
            NametableMirroring::SingleScreen0 => Some(relative % 0x400),
            NametableMirroring::SingleScreen1 => Some(0x400 + relative % 0x400),
            NametableMirroring::FourScreen => None,
        }
    }

    pub fn to_target(self, address: u16) -> (target: PpuTarget)
        ensures
            target == self.target(address),
    {
        match self.map_to_vram(address) {
            Some(index) => PpuTarget::Vram(index),
            None => PpuTarget::Unmapped,
        }
    }
}

/// Where the last `span` bytes of a memory of `len` bytes start; 0 where the
/// memory is smaller than that.
pub open spec fn bank_from_end(len: usize, span: usize) -> usize {
    if len >= span {
        (len - span) as usize
    } else {
        0
    }
}

pub fn bank_start_from_end(len: usize, span: usize) -> (start: usize)
    ensures
        start == bank_from_end(len, span),
{
    if len >= span {
        len - span
    } else {
        0
    }
}

/// The target of a PPU address on a board whose pattern tables are one fixed
/// 8 KiB window: the pattern tables below 0x2000, the nametables above. Only
/// the low 14 bits of the address count.
pub open spec fn plain_ppu_target(
    chr_type: ChrType,
    mirroring: NametableMirroring,
    address: u16,
) -> PpuTarget {
    let address = address % 0x4000;
    if address < 0x2000 {
        chr_type.target(address as usize)
    } else {
        mirroring.target(address)
    }
}

pub fn map_plain_ppu(chr_type: ChrType, mirroring: NametableMirroring, address: u16) -> (target:
    PpuTarget)
    ensures
        target == plain_ppu_target(chr_type, mirroring, address),
{
    let address = address % 0x4000;
    if address < 0x2000 {
        chr_type.to_target(address as usize)
    } else {
        mirroring.to_target(address)
    }
}

} // verus!
