//! CNROM: fixed PRG and a switchable 8 KiB CHR bank.

use vstd::prelude::*;
use crate::nes::cartridge::{vram_store, MapperImpl};
use crate::nes::mappers::{ChrType, CpuTarget, NametableMirroring, PpuTarget};

verus! {

#[derive(Debug, Clone, Copy, PartialEq, Eq, Structural)]
pub struct Cnrom {
    pub chr_type: ChrType,
    pub chr_bank: u8,
    pub nametable_mirroring: NametableMirroring,
}

impl Cnrom {
    pub fn new(chr_type: ChrType, nametable_mirroring: NametableMirroring) -> (cnrom: Self)
        ensures
            cnrom == (Cnrom { chr_type, chr_bank: 0, nametable_mirroring }),
    {
        Self { chr_type, chr_bank: 0, nametable_mirroring }
    }

    /// PRG-RAM from 0x6000 and the fixed PRG-ROM from 0x8000.
    pub open spec fn cpu_target(self, address: u16) -> CpuTarget {
        if address < 0x6000 {
            CpuTarget::Unmapped
        } else if address < 0x8000 {
            CpuTarget::PrgRam((address - 0x6000) as usize)
        } else {
            CpuTarget::PrgRom((address - 0x8000) as usize)
        }
    }

    /// The selected 8 KiB CHR bank below 0x2000, the nametables above. Only
    /// the low 14 bits of the address count.
    pub open spec fn ppu_target(self, address: u16) -> PpuTarget {
        let address = address % 0x4000;
        if address < 0x2000 {
            self.chr_type.target((self.chr_bank * 0x2000 + address) as usize)
        } else {
            self.nametable_mirroring.target(address)
        }
    }

    /// The registers after the CPU writes `value` to `address`: a write from
    /// 0x8000 up selects the CHR bank.
    pub open spec fn after_cpu_write(self, address: u16, value: u8) -> Self {
        if address >= 0x8000 {
            Cnrom { chr_bank: value, ..self }
        } else {
            self
        }
    }

    pub fn map_cpu_address(self, address: u16) -> (target: CpuTarget)
        ensures
            target == self.cpu_target(address),
    {
        if address < 0x6000 {
            CpuTarget::Unmapped
        } else if address < 0x8000 {
            CpuTarget::PrgRam((address - 0x6000) as usize)
        } else {
            CpuTarget::PrgRom((address - 0x8000) as usize)
        }
    }

    pub fn map_ppu_address(self, address: u16) -> (target: PpuTarget)
        ensures
            target == self.ppu_target(address),
    {
        let address = address % 0x4000;
        if address < 0x2000 {
            self.chr_type.to_target(self.chr_bank as usize * 0x2000 + address as usize)
        } else {
            self.nametable_mirroring.to_target(address)
        }
    }
}

impl MapperImpl<Cnrom> {
    pub fn read_cpu_address(&self, address: u16) -> (value: u8)
        ensures
            value == self.cartridge@.cpu_cell(self.data.cpu_target(address)),
    {
        self.cartridge.read_cpu(self.data.map_cpu_address(address))
    }

    pub fn write_cpu_address(&mut self, address: u16, value: u8)
        ensures
            final(self).data == old(self).data.after_cpu_write(address, value),
            final(self).cartridge@ == old(self).cartridge@.cpu_store(
                old(self).data.cpu_target(address),
                value,
            ),
    {
        let target = self.data.map_cpu_address(address);
        self.cartridge.write_cpu(target, value);
        if address >= 0x8000 {
            self.data.chr_bank = value;
        }
    }

    pub fn read_ppu_address(&self, address: u16, vram: &[u8; 2048]) -> (value: u8)
        ensures
            value == self.cartridge@.ppu_cell(self.data.ppu_target(address), vram@),
    {
        self.cartridge.read_ppu(self.data.map_ppu_address(address), vram)
    }

    pub fn write_ppu_address(&mut self, address: u16, value: u8, vram: &mut [u8; 2048])
        ensures
            final(self).data == old(self).data,
            final(self).cartridge@ == old(self).cartridge@.ppu_store(
                old(self).data.ppu_target(address),
                value,
            ),
            final(vram)@ == vram_store(old(vram)@, old(self).data.ppu_target(address), value),
    {
        let target = self.data.map_ppu_address(address);
        self.cartridge.write_ppu(target, value, vram);
    }
}

} // verus!
