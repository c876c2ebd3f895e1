//! NROM: no bank switching at all.

use vstd::prelude::*;
use crate::nes::cartridge::{vram_store, MapperImpl};
use crate::nes::mappers::{
    map_plain_ppu, plain_ppu_target, ChrType, CpuTarget, NametableMirroring, PpuTarget,
};

verus! {

#[derive(Debug, Clone, Copy, PartialEq, Eq, Structural)]
pub struct Nrom {
    pub chr_type: ChrType,
    pub nametable_mirroring: NametableMirroring,
}

impl Nrom {
    pub fn new(chr_type: ChrType, nametable_mirroring: NametableMirroring) -> (nrom: Self)
        ensures
            nrom == (Nrom { chr_type, nametable_mirroring }),
    {
        Self { chr_type, nametable_mirroring }
    }

    /// PRG-RAM from 0x6000, PRG-ROM from 0x8000; 16 KiB of PRG-ROM shows
    /// twice because indices wrap.
    pub open spec fn cpu_target(self, address: u16) -> CpuTarget {
        if address < 0x6000 {
            CpuTarget::Unmapped
        } else if address < 0x8000 {
            CpuTarget::PrgRam((address - 0x6000) as usize)
        } else {
            CpuTarget::PrgRom((address - 0x8000) as usize)
        }
    }

    pub open spec fn ppu_target(self, address: u16) -> PpuTarget {
        plain_ppu_target(self.chr_type, self.nametable_mirroring, address)
    }

    pub fn map_cpu_address(self, address: u16) -> (target: CpuTarget)
        ensures
            target == self.cpu_target(address),
    {
        if address < 0x6000 {
            CpuTarget::Unmapped
        } else if address < 0x8000 {
            CpuTarget::PrgRam((address - 0x6000) as usize)
        } else {
            CpuTarget::PrgRom((address - 0x8000) as usize)
        }
    }

    pub fn map_ppu_address(self, address: u16) -> (target: PpuTarget)
        ensures
            target == self.ppu_target(address),
    {
        map_plain_ppu(self.chr_type, self.nametable_mirroring, address)
    }
}

impl MapperImpl<Nrom> {
    pub fn read_cpu_address(&self, address: u16) -> (value: u8)
        ensures
            value == self.cartridge@.cpu_cell(self.data.cpu_target(address)),
    {
        self.cartridge.read_cpu(self.data.map_cpu_address(address))
    }

    pub fn read_ppu_address(&self, address: u16, vram: &[u8; 2048]) -> (value: u8)
        ensures
            value == self.cartridge@.ppu_cell(self.data.ppu_target(address), vram@),
    {
        self.cartridge.read_ppu(self.data.map_ppu_address(address), vram)
    }

    pub fn write_ppu_address(&mut self, address: u16, value: u8, vram: &mut [u8; 2048])
        ensures
            final(self).data == old(self).data,
            final(self).cartridge@ == old(self).cartridge@.ppu_store(
                old(self).data.ppu_target(address),
                value,
            ),
            final(vram)@ == vram_store(old(vram)@, old(self).data.ppu_target(address), value),
    {
        let target = self.data.map_ppu_address(address);
        self.cartridge.write_ppu(target, value, vram);
    }
}

} // verus!
