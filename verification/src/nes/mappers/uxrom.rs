//! UxROM: a switchable 16 KiB PRG bank below a fixed last bank.

use vstd::prelude::*;
use crate::nes::cartridge::{vram_store, MapperImpl};
use crate::nes::mappers::{
    bank_from_end, bank_start_from_end, map_plain_ppu, plain_ppu_target, ChrType, CpuTarget,
    NametableMirroring, PpuTarget,
};

verus! {

#[derive(Debug, Clone, Copy, PartialEq, Eq, Structural)]
pub struct Uxrom {
    pub chr_type: ChrType,
    pub prg_bank: u8,
    pub nametable_mirroring: NametableMirroring,
}

impl Uxrom {
    pub fn new(chr_type: ChrType, nametable_mirroring: NametableMirroring) -> (uxrom: Self)
        ensures
            uxrom == (Uxrom { chr_type, prg_bank: 0, nametable_mirroring }),
    {
        Self { chr_type, prg_bank: 0, nametable_mirroring }
    }

    /// PRG-RAM from 0x6000, the selected 16 KiB bank from 0x8000, and the last
    /// 16 KiB bank of a PRG-ROM of `prg_rom_len` bytes from 0xC000.
    pub open spec fn cpu_target(self, prg_rom_len: usize, address: u16) -> CpuTarget {
        if address < 0x6000 {
            CpuTarget::Unmapped
        } else if address < 0x8000 {
            CpuTarget::PrgRam((address - 0x6000) as usize)
        } else if address < 0xC000 {
            CpuTarget::PrgRom((self.prg_bank * 0x4000 + (address - 0x8000)) as usize)
        } else {
            CpuTarget::PrgRom(
                (bank_from_end(prg_rom_len, 0x4000) + (address - 0xC000)) as usize,
            )
        }
    }

    pub open spec fn ppu_target(self, address: u16) -> PpuTarget {
        plain_ppu_target(self.chr_type, self.nametable_mirroring, address)
    }

    /// The registers after the CPU writes `value` to `address`: a write from
    /// 0x8000 up selects the PRG bank.
    pub open spec fn after_cpu_write(self, address: u16, value: u8) -> Self {
        if address >= 0x8000 {
            Uxrom { prg_bank: value, ..self }
        } else {
            self
        }
    }

    pub fn map_cpu_address(self, prg_rom_len: usize, address: u16) -> (target: CpuTarget)
        ensures
            target == self.cpu_target(prg_rom_len, address),
    {
        if address < 0x6000 {
            CpuTarget::Unmapped
        } else if address < 0x8000 {
            CpuTarget::PrgRam((address - 0x6000) as usize)
        } else if address < 0xC000 {
            CpuTarget::PrgRom(self.prg_bank as usize * 0x4000 + (address - 0x8000) as usize)
        } else {
            let last = bank_start_from_end(prg_rom_len, 0x4000);
            CpuTarget::PrgRom(last + (address - 0xC000) as usize)
        }
    }

    pub fn map_ppu_address(self, address: u16) -> (target: PpuTarget)
        ensures
            target == self.ppu_target(address),
    {
        map_plain_ppu(self.chr_type, self.nametable_mirroring, address)
    }
}

impl MapperImpl<Uxrom> {
    pub fn read_cpu_address(&self, address: u16) -> (value: u8)
        ensures
            value == self.cartridge@.cpu_cell(
                self.data.cpu_target(self.cartridge.prg_rom.len(), address),
            ),
    {
        self.cartridge.read_cpu(self.data.map_cpu_address(self.cartridge.prg_rom.len(), address))
    }

    pub fn write_cpu_address(&mut self, address: u16, value: u8)
        ensures
            final(self).data == old(self).data.after_cpu_write(address, value),
            final(self).cartridge@ == old(self).cartridge@.cpu_store(
                old(self).data.cpu_target(old(self).cartridge.prg_rom.len(), address),
                value,
            ),
    {
        let target = self.data.map_cpu_address(self.cartridge.prg_rom.len(), address);
        self.cartridge.write_cpu(target, value);
        if address >= 0x8000 {
            self.data.prg_bank = value;
        }
    }

    pub fn read_ppu_address(&self, address: u16, vram: &[u8; 2048]) -> (value: u8)
        ensures
            value == self.cartridge@.ppu_cell(self.data.ppu_target(address), vram@),
    {
        self.cartridge.read_ppu(self.data.map_ppu_address(address), vram)
    }

    pub fn write_ppu_address(&mut self, address: u16, value: u8, vram: &mut [u8; 2048])
        ensures
            final(self).data == old(self).data,
            final(self).cartridge@ == old(self).cartridge@.ppu_store(
                old(self).data.ppu_target(address),
                value,
            ),
            final(vram)@ == vram_store(old(vram)@, old(self).data.ppu_target(address), value),
    {
        let target = self.data.map_ppu_address(address);
        self.cartridge.write_ppu(target, value, vram);
    }
}

} // verus!
