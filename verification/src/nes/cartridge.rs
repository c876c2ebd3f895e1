//! The cartridge's memories and the mapper that routes addresses into them.

use vstd::prelude::*;
use crate::nes::mappers::axrom::Axrom;
use crate::nes::mappers::cnrom::Cnrom;
use crate::nes::mappers::mmc1::Mmc1;
use crate::nes::mappers::mmc3::{Mmc3, Mmc3View};
use crate::nes::mappers::nrom::Nrom;
use crate::nes::mappers::uxrom::Uxrom;
use crate::nes::mappers::{
    ChrType, CpuTarget, NametableMirroring, PpuTarget, PpuWriteToggle, OPEN_BUS,
};

verus! {

/// The four memories of a cartridge.
#[derive(Debug, Clone)]
pub struct Cartridge {
    pub prg_rom: Vec<u8>,
    pub prg_ram: Vec<u8>,
    pub chr_rom: Vec<u8>,
    pub chr_ram: Vec<u8>,
}

/// The four memories as sequences of bytes.
#[verifier::ext_equal]
pub struct CartridgeView {
    pub prg_rom: Seq<u8>,
    pub prg_ram: Seq<u8>,
    pub chr_rom: Seq<u8>,
    pub chr_ram: Seq<u8>,
}

impl View for Cartridge {
    type V = CartridgeView;

    open spec fn view(&self) -> CartridgeView {
        CartridgeView {
            prg_rom: self.prg_rom@,
            prg_ram: self.prg_ram@,
            chr_rom: self.chr_rom@,
            chr_ram: self.chr_ram@,
        }
    }
}

/// The byte of `memory` that `index` selects when it wraps at the memory's
/// size; an empty memory answers with the open bus.
pub open spec fn wrapped(memory: Seq<u8>, index: int) -> u8 {
    if memory.len() == 0 {
        OPEN_BUS
    } else {
        memory[index % memory.len() as int]
    }
}

/// `memory` with `value` in the cell that `index` selects when it wraps at the
/// memory's size; an empty memory stays empty.
pub open spec fn wrapped_store(memory: Seq<u8>, index: int, value: u8) -> Seq<u8> {
    if memory.len() == 0 {
        memory
    } else {
        memory.update(index % memory.len() as int, value)
    }
}

fn read_wrapped(memory: &Vec<u8>, index: usize) -> (value: u8)
    ensures
        value == wrapped(memory@, index as int),
{
    if memory.len() == 0 {
        OPEN_BUS
    } else {
        memory[index % memory.len()]
    }
}

fn write_wrapped(memory: &mut Vec<u8>, index: usize, value: u8)
    ensures
        final(memory)@ == wrapped_store(old(memory)@, index as int, value),
{
    if memory.len() != 0 {
        let cell = index % memory.len();
        memory[cell] = value;
    }
}

impl CartridgeView {
    /// The pattern tables are ROM or RAM, never both.
    pub open spec fn wf(self) -> bool {
        self.chr_rom.len() == 0 || self.chr_ram.len() == 0
    }

    /// What the CPU reads from `target`.
    pub open spec fn cpu_cell(self, target: CpuTarget) -> u8 {
        match target {
            CpuTarget::Unmapped => OPEN_BUS,
            CpuTarget::PrgRam(index) => wrapped(self.prg_ram, index as int),
            CpuTarget::PrgRom(index) => wrapped(self.prg_rom, index as int),
        }
    }

    /// The memories after the CPU writes `value` to `target`: only PRG-RAM
    /// takes writes.
    pub open spec fn cpu_store(self, target: CpuTarget, value: u8) -> Self {
        match target {
            CpuTarget::PrgRam(index) => CartridgeView {
                prg_ram: wrapped_store(self.prg_ram, index as int, value),
                ..self
            },
            _ => self,
        }
    }

    /// What the PPU reads from `target`, with `vram` the console's nametable
    /// memory.
    pub open spec fn ppu_cell(self, target: PpuTarget, vram: Seq<u8>) -> u8 {
        match target {
            PpuTarget::Unmapped => OPEN_BUS,
            PpuTarget::ChrRom(index) => wrapped(self.chr_rom, index as int),
            PpuTarget::ChrRam(index) => wrapped(self.chr_ram, index as int),
            PpuTarget::Vram(index) => vram[index as int % 2048],
        }
    }

    /// The memories after the PPU writes `value` to `target`: only CHR-RAM
    /// takes writes.
    pub open spec fn ppu_store(self, target: PpuTarget, value: u8) -> Self {
        match target {
            PpuTarget::ChrRam(index) => CartridgeView {
                chr_ram: wrapped_store(self.chr_ram, index as int, value),
                ..self
            },
            _ => self,
        }
    }
}

/// The console's nametable memory after the PPU writes `value` to `target`.
pub open spec fn vram_store(vram: Seq<u8>, target: PpuTarget, value: u8) -> Seq<u8> {
    match target {
        PpuTarget::Vram(index) => vram.update(index as int % 2048, value),
        _ => vram,
    }
}

impl Cartridge {
    pub fn read_cpu(&self, target: CpuTarget) -> (value: u8)
        ensures
            value == self@.cpu_cell(target),
    {
        match target {
            CpuTarget::Unmapped => OPEN_BUS,
            CpuTarget::PrgRam(index) => read_wrapped(&self.prg_ram, index),
            CpuTarget::PrgRom(index) => read_wrapped(&self.prg_rom, index),
        }
    }

    pub fn write_cpu(&mut self, target: CpuTarget, value: u8)
        ensures
            final(self)@ == old(self)@.cpu_store(target, value),
    {
        match target {
            CpuTarget::PrgRam(index) => {
                write_wrapped(&mut self.prg_ram, index, value);
            },
            _ => {},
        }
    }

    pub fn read_ppu(&self, target: PpuTarget, vram: &[u8; 2048]) -> (value: u8)
        ensures
            value == self@.ppu_cell(target, vram@),
    {
        match target {
            PpuTarget::Unmapped => OPEN_BUS,
            PpuTarget::ChrRom(index) => read_wrapped(&self.chr_rom, index),
            PpuTarget::ChrRam(index) => read_wrapped(&self.chr_ram, index),
            PpuTarget::Vram(index) => vram[(index % 2048) as usize],
        }
    }

    pub fn write_ppu(&mut self, target: PpuTarget, value: u8, vram: &mut [u8; 2048])
        ensures
            final(self)@ == old(self)@.ppu_store(target, value),
            final(vram)@ == vram_store(old(vram)@, target, value),
    {
        match target {
            PpuTarget::ChrRam(index) => {
                write_wrapped(&mut self.chr_ram, index, value);
            },
            PpuTarget::Vram(index) => {
                vram[(index % 2048) as usize] = value;
            },
            _ => {},
        }
    }
}

/// A board: the cartridge's memories together with the board's own registers.
#[derive(Debug, Clone)]
pub struct MapperImpl<MapperData> {
    pub cartridge: Cartridge,
    pub data: MapperData,
}

/// A cartridge with the board that it is built on.
#[derive(Debug, Clone)]
pub enum Mapper {
    Nrom(MapperImpl<Nrom>),
    Uxrom(MapperImpl<Uxrom>),
    Mmc1(MapperImpl<Mmc1>),
    Cnrom(MapperImpl<Cnrom>),
    Mmc3(MapperImpl<Mmc3>),
    Axrom(MapperImpl<Axrom>),
}

/// The registers of a board.
pub enum Board {
    Nrom(Nrom),
    Uxrom(Uxrom),
    Mmc1(Mmc1),
    Cnrom(Cnrom),
    Mmc3(Mmc3View),
    Axrom(Axrom),
}

/// A mapper as a mathematical value: the memories and the board's registers.
pub struct MapperView {
    pub cartridge: CartridgeView,
    pub board: Board,
}

impl View for Mapper {
    type V = MapperView;

    open spec fn view(&self) -> MapperView {
        match self {
            Mapper::Nrom(mapper) => MapperView {
                cartridge: mapper.cartridge@,
                board: Board::Nrom(mapper.data),
            },
            Mapper::Uxrom(mapper) => MapperView {
                cartridge: mapper.cartridge@,
                board: Board::Uxrom(mapper.data),
            },
            Mapper::Mmc1(mapper) => MapperView {
                cartridge: mapper.cartridge@,
                board: Board::Mmc1(mapper.data),
            },
            Mapper::Cnrom(mapper) => MapperView {
                cartridge: mapper.cartridge@,
                board: Board::Cnrom(mapper.data),
            },
            Mapper::Mmc3(mapper) => MapperView {
                cartridge: mapper.cartridge@,
                board: Board::Mmc3(mapper.data@),
            },
            Mapper::Axrom(mapper) => MapperView {
                cartridge: mapper.cartridge@,
                board: Board::Axrom(mapper.data),
            },
        }
    }
}

impl Board {
    pub open spec fn name(self) -> Seq<char> {
        match self {
            Board::Nrom(_) => "NROM"@,
            Board::Uxrom(_) => "UxROM"@,
            Board::Mmc1(_) => "MMC1"@,
            Board::Cnrom(_) => "CNROM"@,
            Board::Mmc3(_) => "MMC3"@,
            Board::Axrom(_) => "AxROM"@,
        }
    }

    /// The nametable mirroring in force.
    pub open spec fn mirroring(self) -> NametableMirroring {
        match self {
            Board::Nrom(board) => board.nametable_mirroring,
            Board::Uxrom(board) => board.nametable_mirroring,
            Board::Mmc1(board) => board.nametable_mirroring,
            Board::Cnrom(board) => board.nametable_mirroring,
            Board::Mmc3(board) => board.nametable_mirroring,
            Board::Axrom(board) => board.nametable_mirroring,
        }
    }

    /// The cell that a CPU address selects, on a cartridge with `prg_rom_len`
    /// bytes of PRG-ROM.
    pub open spec fn cpu_target(self, prg_rom_len: usize, address: u16) -> CpuTarget {
        match self {
            Board::Nrom(board) => board.cpu_target(address),
            Board::Uxrom(board) => board.cpu_target(prg_rom_len, address),
            Board::Mmc1(board) => board.cpu_target(prg_rom_len, address),
            Board::Cnrom(board) => board.cpu_target(address),
            Board::Mmc3(board) => board.cpu_target(address),
            Board::Axrom(board) => board.cpu_target(address),
        }
    }

    /// The cell that a PPU address selects.
    pub open spec fn ppu_target(self, address: u16) -> PpuTarget {
        match self {
            Board::Nrom(board) => board.ppu_target(address),
            Board::Uxrom(board) => board.ppu_target(address),
            Board::Mmc1(board) => board.ppu_target(address),
            Board::Cnrom(board) => board.ppu_target(address),
            Board::Mmc3(board) => board.ppu_target(address),
            Board::Axrom(board) => board.ppu_target(address),
        }
    }

    /// The registers after the CPU writes `value` to `address`.
    pub open spec fn after_cpu_write(self, address: u16, value: u8) -> Self {
        match self {
            Board::Nrom(board) => self,
            Board::Uxrom(board) => Board::Uxrom(board.after_cpu_write(address, value)),
            Board::Mmc1(board) => Board::Mmc1(board.after_cpu_write(address, value)),
            Board::Cnrom(board) => Board::Cnrom(board.after_cpu_write(address, value)),
            Board::Mmc3(board) => Board::Mmc3(board.after_cpu_write(address, value)),
            Board::Axrom(board) => Board::Axrom(board.after_cpu_write(address, value)),
        }
    }

    /// The registers after the PPU has put `address` on its bus: only MMC3
    /// watches.
    pub open spec fn after_ppu_address(self, address: u16) -> Self {
        match self {
            Board::Mmc3(board) => Board::Mmc3(board.after_ppu_address(address)),
            _ => self,
        }
    }

    /// The registers after a PPU cycle.
    pub open spec fn after_tick(self) -> Self {
        match self {
            Board::Mmc3(board) => Board::Mmc3(board.after_tick()),
            _ => self,
        }
    }

    /// The registers after a CPU cycle.
    pub open spec fn after_tick_cpu(self) -> Self {
        match self {
            Board::Mmc1(board) => Board::Mmc1(board.after_tick_cpu()),
            _ => self,
        }
    }

    /// The registers after a write to the PPU's address port.
    pub open spec fn after_ppu_addr_update(self, value: u8, write_toggle: PpuWriteToggle) -> Self {
        match self {
            Board::Mmc3(board) => Board::Mmc3(board.after_ppu_addr_update(value, write_toggle)),
            _ => self,
        }
    }

    /// Whether the board asks for an interrupt: only MMC3 ever does.
    pub open spec fn interrupt_flag(self) -> bool {
        match self {
            Board::Mmc3(board) => board.interrupt_flag,
            _ => false,
        }
    }
}

impl MapperView {
    pub open spec fn cpu_target(self, address: u16) -> CpuTarget {
        self.board.cpu_target(self.cartridge.prg_rom.len() as usize, address)
    }

    /// What the CPU reads at `address`.
    pub open spec fn cpu_read(self, address: u16) -> u8 {
        self.cartridge.cpu_cell(self.cpu_target(address))
    }

    /// The mapper after the CPU writes `value` to `address`. NROM takes no
    /// writes at all; on the other boards PRG-RAM takes the value where the
    /// address selects it, and the registers take it as the board says.
    pub open spec fn after_cpu_write(self, address: u16, value: u8) -> Self {
        if self.board is Nrom {
            self
        } else {
            MapperView {
                cartridge: self.cartridge.cpu_store(self.cpu_target(address), value),
                board: self.board.after_cpu_write(address, value),
            }
        }
    }

    /// What the PPU reads at `address`, with `vram` the console's nametable
    /// memory.
    pub open spec fn ppu_read(self, address: u16, vram: Seq<u8>) -> u8 {
        self.cartridge.ppu_cell(self.board.ppu_target(address), vram)
    }

    /// The mapper after the PPU has read at `address`.
    pub open spec fn after_ppu_read(self, address: u16) -> Self {
        MapperView { board: self.board.after_ppu_address(address), ..self }
    }

    /// The mapper after the PPU writes `value` to `address`.
    pub open spec fn after_ppu_write(self, address: u16, value: u8) -> Self {
        MapperView {
            cartridge: self.cartridge.ppu_store(self.board.ppu_target(address), value),
            board: self.board.after_ppu_address(address),
        }
    }
}

impl Mapper {
    pub fn name(&self) -> (name: &'static str)
        ensures
            name@ == self@.board.name(),
    {
        match self {
            Mapper::Nrom(..) => "NROM",
            Mapper::Uxrom(..) => "UxROM",
            Mapper::Mmc1(..) => "MMC1",
            Mapper::Cnrom(..) => "CNROM",
            Mapper::Mmc3(..) => "MMC3",
            Mapper::Axrom(..) => "AxROM",
        }
    }

    pub fn read_cpu_address(&self, address: u16) -> (value: u8)
        ensures
            value == self@.cpu_read(address),
    {
        match self {
            Mapper::Nrom(nrom) => nrom.read_cpu_address(address),
            Mapper::Uxrom(uxrom) => uxrom.read_cpu_address(address),
            Mapper::Mmc1(mmc1) => mmc1.read_cpu_address(address),
            Mapper::Cnrom(cnrom) => cnrom.read_cpu_address(address),
            Mapper::Mmc3(mmc3) => mmc3.read_cpu_address(address),
            Mapper::Axrom(axrom) => axrom.read_cpu_address(address),
        }
    }

    pub fn write_cpu_address(&mut self, address: u16, value: u8)
        ensures
            final(self)@ == old(self)@.after_cpu_write(address, value),
    {
        match self {
            Mapper::Nrom(..) => {},
            Mapper::Uxrom(uxrom) => {
                uxrom.write_cpu_address(address, value);
            },
            Mapper::Mmc1(mmc1) => {
                mmc1.write_cpu_address(address, value);
            },
            Mapper::Cnrom(cnrom) => {
                cnrom.write_cpu_address(address, value);
            },
            Mapper::Mmc3(mmc3) => {
                mmc3.write_cpu_address(address, value);
            },
            Mapper::Axrom(axrom) => {
                axrom.write_cpu_address(address, value);
            },
        }
    }

    pub fn read_ppu_address(&mut self, address: u16, vram: &[u8; 2048]) -> (value: u8)
        ensures
            value == old(self)@.ppu_read(address, vram@),
            final(self)@ == old(self)@.after_ppu_read(address),
    {
        match self {
            Mapper::Nrom(nrom) => nrom.read_ppu_address(address, vram),
            Mapper::Uxrom(uxrom) => uxrom.read_ppu_address(address, vram),
            Mapper::Mmc1(mmc1) => mmc1.read_ppu_address(address, vram),
            Mapper::Cnrom(cnrom) => cnrom.read_ppu_address(address, vram),
            Mapper::Mmc3(mmc3) => mmc3.read_ppu_address(address, vram),
            Mapper::Axrom(axrom) => axrom.read_ppu_address(address, vram),
        }
    }

    pub fn write_ppu_address(&mut self, address: u16, value: u8, vram: &mut [u8; 2048])
        ensures
            final(self)@ == old(self)@.after_ppu_write(address, value),
            final(vram)@ == vram_store(old(vram)@, old(self)@.board.ppu_target(address), value),
    {
        match self {
            Mapper::Nrom(nrom) => {
                nrom.write_ppu_address(address, value, vram);
            },
            Mapper::Uxrom(uxrom) => {
                uxrom.write_ppu_address(address, value, vram);
            },
            Mapper::Mmc1(mmc1) => {
                mmc1.write_ppu_address(address, value, vram);
            },
            Mapper::Cnrom(cnrom) => {
                cnrom.write_ppu_address(address, value, vram);
            },
            Mapper::Mmc3(mmc3) => {
                mmc3.write_ppu_address(address, value, vram);
            },
            Mapper::Axrom(axrom) => {
                axrom.write_ppu_address(address, value, vram);
            },
        }
    }

    /// Lets one PPU cycle pass.
    pub fn tick(&mut self)
        ensures
            final(self)@ == (MapperView { board: old(self)@.board.after_tick(), ..old(self)@ }),
    {
        match self {
            Mapper::Nrom(..) | Mapper::Uxrom(..) | Mapper::Cnrom(..) | Mapper::Axrom(..) | Mapper::Mmc1(
                ..,
            ) => {},
            Mapper::Mmc3(mmc3) => {
                mmc3.tick();
            },
        }
    }

    /// Lets one CPU cycle pass.
    pub fn tick_cpu(&mut self)
        ensures
            final(self)@ == (MapperView { board: old(self)@.board.after_tick_cpu(), ..old(self)@ }),
    {
        if let Mapper::Mmc1(mmc1) = self {
            mmc1.tick_cpu();
        }
    }

    pub fn interrupt_flag(&self) -> (flag: bool)
        ensures
            flag == self@.board.interrupt_flag(),
    {
        match self {
            Mapper::Mmc3(mmc3) => mmc3.interrupt_flag(),
            _ => false,
        }
    }

    pub fn process_ppu_addr_update(&mut self, value: u8, write_toggle: PpuWriteToggle)
        ensures
            final(self)@ == (MapperView {
                board: old(self)@.board.after_ppu_addr_update(value, write_toggle),
                ..old(self)@
            }),
    {
        if let Mapper::Mmc3(mmc3) = self {
            mmc3.process_ppu_addr_update(value, write_toggle);
        }
    }

    pub fn process_ppu_addr_increment(&mut self, new_ppu_addr: u16)
        ensures
            final(self)@ == (MapperView {
                board: old(self)@.board.after_ppu_address(new_ppu_addr),
                ..old(self)@
            }),
    {
        if let Mapper::Mmc3(mmc3) = self {
            mmc3.process_ppu_addr_increment(new_ppu_addr);
        }
    }
}

} // verus!
