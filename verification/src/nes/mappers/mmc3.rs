//! MMC3: eight bank registers and a scanline counter clocked by PPU address
//! line 12.

use vstd::prelude::*;
use crate::nes::cartridge::{vram_store, MapperImpl};
use crate::nes::mappers::{
    bank_from_end, bank_start_from_end, ChrType, CpuTarget, NametableMirroring, PpuTarget,
    PpuWriteToggle,
};

verus! {

/// For how many PPU cycles address line 12 must have been low before a rise
/// of it clocks the scanline counter.
pub const A12_FILTER: u8 = 10;

/// The sub-mapper whose counter raises no interrupt when it is reloaded with
/// zero after having run out on its own.
pub const SUB_MAPPER_ALTERNATE_IRQ: u8 = 4;

#[derive(Debug, Clone, Copy)]
pub struct Mmc3 {
    pub chr_type: ChrType,
    pub prg_rom_size: u32,
    pub chr_size: u32,
    pub sub_mapper_number: u8,
    /// Which bank register the next write to an odd address from 0x8000 sets.
    pub bank_select: u8,
    /// The windows at 0x8000 and 0xC000 have changed roles.
    pub prg_mode_swapped: bool,
    /// The 2 KiB windows sit at 0x1000 and the 1 KiB windows at 0x0000.
    pub chr_mode_inverted: bool,
    pub bank_registers: [u8; 8],
    pub nametable_mirroring: NametableMirroring,
    pub irq_latch: u8,
    pub irq_counter: u8,
    pub irq_reload: bool,
    pub irq_enabled: bool,
    pub interrupt_flag: bool,
    /// Address line 12 as last seen.
    pub a12_high: bool,
    /// For how many PPU cycles address line 12 has been low; stops at 255.
    pub a12_low_ticks: u8,
}

/// The board's registers as a mathematical value.
#[verifier::ext_equal]
pub struct Mmc3View {
    pub chr_type: ChrType,
    pub prg_rom_size: u32,
    pub chr_size: u32,
    pub sub_mapper_number: u8,
    pub bank_select: u8,
    pub prg_mode_swapped: bool,
    pub chr_mode_inverted: bool,
    pub bank_registers: Seq<u8>,
    pub nametable_mirroring: NametableMirroring,
    pub irq_latch: u8,
    pub irq_counter: u8,
    pub irq_reload: bool,
    pub irq_enabled: bool,
    pub interrupt_flag: bool,
    pub a12_high: bool,
    pub a12_low_ticks: u8,
}

impl View for Mmc3 {
    type V = Mmc3View;

    open spec fn view(&self) -> Mmc3View {
        Mmc3View {
            chr_type: self.chr_type,
            prg_rom_size: self.prg_rom_size,
            chr_size: self.chr_size,
            sub_mapper_number: self.sub_mapper_number,
            bank_select: self.bank_select,
            prg_mode_swapped: self.prg_mode_swapped,
            chr_mode_inverted: self.chr_mode_inverted,
            bank_registers: self.bank_registers@,
            nametable_mirroring: self.nametable_mirroring,
            irq_latch: self.irq_latch,
            irq_counter: self.irq_counter,
            irq_reload: self.irq_reload,
            irq_enabled: self.irq_enabled,
            interrupt_flag: self.interrupt_flag,
            a12_high: self.a12_high,
            a12_low_ticks: self.a12_low_ticks,
        }
    }
}

impl Mmc3View {
    pub open spec fn wf(self) -> bool {
        self.bank_registers.len() == 8
    }

    /// The board at power-on.
    pub open spec fn initial(
        chr_type: ChrType,
        prg_rom_size: u32,
        chr_size: u32,
        sub_mapper_number: u8,
    ) -> Self {
        Mmc3View {
            chr_type,
            prg_rom_size,
            chr_size,
            sub_mapper_number,
            bank_select: 0,
            prg_mode_swapped: false,
            chr_mode_inverted: false,
            bank_registers: Seq::new(8, |i: int| 0u8),
            nametable_mirroring: NametableMirroring::Vertical,
            irq_latch: 0,
            irq_counter: 0,
            irq_reload: false,
            irq_enabled: false,
            interrupt_flag: false,
            a12_high: false,
            a12_low_ticks: 0,
        }
    }

    /// Where in PRG-ROM the 8 KiB window with the given number, 0 for the one
    /// at 0x8000 to 3 for the one at 0xE000, starts. R6 and R7 give their low
    /// six bits; the last window always shows the last bank, and the second
    /// last bank shows at 0xC000, or at 0x8000 when the roles are swapped.
    pub open spec fn prg_window(self, window: int) -> int {
        let r6 = (self.bank_registers[6] % 64) * 0x2000;
        let r7 = (self.bank_registers[7] % 64) * 0x2000;
        let second_last = bank_from_end(self.prg_rom_size as usize, 0x4000) as int;
        let last = bank_from_end(self.prg_rom_size as usize, 0x2000) as int;
        if window == 0 {
            if self.prg_mode_swapped {
                second_last
            } else {
                r6
            }
        } else if window == 1 {
            r7
        } else if window == 2 {
            if self.prg_mode_swapped {
                r6
            } else {
                second_last
            }
        } else {
            last
        }
    }

    /// PRG-RAM from 0x6000 and four 8 KiB windows into PRG-ROM from 0x8000.
    pub open spec fn cpu_target(self, address: u16) -> CpuTarget {
        if address < 0x6000 {
            CpuTarget::Unmapped
        } else if address < 0x8000 {
            CpuTarget::PrgRam((address - 0x6000) as usize)
        } else {
            CpuTarget::PrgRom(
                (self.prg_window((address - 0x8000) / 0x2000) + address % 0x2000) as usize,
            )
        }
    }

    /// The 1 KiB CHR bank that shows in the 1 KiB slot with the given number,
    /// 0 to 7. Without inversion R0 and R1 fill two slots each from slot 0 and
    /// R2 to R5 one each from slot 4; inversion exchanges the two halves.
    pub open spec fn chr_bank(self, slot: int) -> int {
        let slot = if self.chr_mode_inverted {
            (slot + 4) % 8
        } else {
            slot
        };
        if slot < 2 {
            self.bank_registers[0] / 2 * 2 + slot
        } else if slot < 4 {
            self.bank_registers[1] / 2 * 2 + (slot - 2)
        } else {
            self.bank_registers[slot - 2] as int
        }
    }

    /// The pattern tables below 0x2000 in eight 1 KiB slots, the nametables
    /// above. Only the low 14 bits of the address count.
    pub open spec fn ppu_target(self, address: u16) -> PpuTarget {
        let address = address % 0x4000;
        if address < 0x2000 {
            self.chr_type.target(
                (self.chr_bank(address as int / 0x400) * 0x400 + address % 0x400) as usize,
            )
        } else {
            self.nametable_mirroring.target(address)
        }
    }

    /// The registers after the CPU writes `value` to `address`. From 0x8000
    /// up, each 8 KiB region holds one register at its even addresses and
    /// one at its odd addresses.
    pub open spec fn after_cpu_write(self, address: u16, value: u8) -> Self {
        if address < 0x8000 {
            self
        } else {
            let region = (address - 0x8000) / 0x2000;
            let odd = address % 2 == 1;
            if region == 0 && !odd {
                Mmc3View {
                    bank_select: value % 8,
                    prg_mode_swapped: (value / 0x40) % 2 == 1,
                    chr_mode_inverted: value >= 0x80,
                    ..self
                }
            } else if region == 0 {
                Mmc3View {
                    bank_registers: self.bank_registers.update(self.bank_select as int % 8, value),
                    ..self
                }
            } else if region == 1 && !odd {
                Mmc3View {
                    nametable_mirroring: if value % 2 == 1 {
                        NametableMirroring::Horizontal
                    } else {
                        NametableMirroring::Vertical
                    },
                    ..self
                }
            } else if region == 1 {
                self
            } else if region == 2 && !odd {
                Mmc3View { irq_latch: value, ..self }
            } else if region == 2 {
                Mmc3View { irq_counter: 0, irq_reload: true, ..self }
            } else if !odd {
                Mmc3View { irq_enabled: false, interrupt_flag: false, ..self }
            } else {
                Mmc3View { irq_enabled: true, ..self }
            }
        }
    }

    /// The registers after the scanline counter is clocked: a counter at
    /// zero, or one marked for reload, takes the latch's value, and any other
    /// counter goes down by one. A counter that is zero afterwards raises the
    /// interrupt flag if interrupts are enabled; on the alternate sub-mapper
    /// only if it was not zero before or was marked for reload.
    pub open spec fn clocked(self) -> Self {
        let counter = if self.irq_counter == 0 || self.irq_reload {
            self.irq_latch
        } else {
            (self.irq_counter - 1) as u8
        };
        let fires = counter == 0 && self.irq_enabled && (self.sub_mapper_number
            != SUB_MAPPER_ALTERNATE_IRQ || self.irq_counter > 0 || self.irq_reload);
        Mmc3View {
            irq_counter: counter,
            irq_reload: false,
            interrupt_flag: self.interrupt_flag || fires,
            ..self
        }
    }

    /// The registers after the PPU shows address line 12 as `high`. A rise
    /// after at least `A12_FILTER` low cycles clocks the scanline counter.
    pub open spec fn after_a12(self, high: bool) -> Self {
        if high {
            let seen = Mmc3View { a12_high: true, a12_low_ticks: 0, ..self };
            if !self.a12_high && self.a12_low_ticks >= A12_FILTER {
                seen.clocked()
            } else {
                seen
            }
        } else {
            Mmc3View { a12_high: false, ..self }
        }
    }

    /// The registers after a PPU cycle: one more low cycle if address line 12
    /// is low.
    pub open spec fn after_tick(self) -> Self {
        if !self.a12_high && self.a12_low_ticks < 255 {
            Mmc3View { a12_low_ticks: (self.a12_low_ticks + 1) as u8, ..self }
        } else {
            self
        }
    }

    /// The registers after the PPU has put `address` on its bus.
    pub open spec fn after_ppu_address(self, address: u16) -> Self {
        self.after_a12((address / 0x1000) % 2 == 1)
    }

    /// The registers after a write of `value` to the PPU's address port. The
    /// first write of a pair carries address bits 13..8, address line 12 in
    /// bit 4; the second write leaves line 12 alone.
    pub open spec fn after_ppu_addr_update(self, value: u8, write_toggle: PpuWriteToggle) -> Self {
        match write_toggle {
            PpuWriteToggle::First => self.after_a12((value / 0x10) % 2 == 1),
            PpuWriteToggle::Second => self,
        }
    }
}

impl Mmc3 {
    pub fn new(chr_type: ChrType, prg_rom_size: u32, chr_size: u32, sub_mapper_number: u8) -> (mmc3:
        Self)
        ensures
            mmc3@ == Mmc3View::initial(chr_type, prg_rom_size, chr_size, sub_mapper_number),
    {
        Self {
            chr_type,
            prg_rom_size,
            chr_size,
            sub_mapper_number,
            bank_select: 0,
            prg_mode_swapped: false,
            chr_mode_inverted: false,
            bank_registers: [0; 8],
            nametable_mirroring: NametableMirroring::Vertical,
            irq_latch: 0,
            irq_counter: 0,
            irq_reload: false,
            irq_enabled: false,
            interrupt_flag: false,
            a12_high: false,
            a12_low_ticks: 0,
        }
    }

    pub fn map_cpu_address(&self, address: u16) -> (target: CpuTarget)
        ensures
            target == self@.cpu_target(address),
    {
        if address < 0x6000 {
            CpuTarget::Unmapped
        } else if address < 0x8000 {
            CpuTarget::PrgRam((address - 0x6000) as usize)
        } else {
            let r6 = (self.bank_registers[6] % 64) as usize * 0x2000;
            let r7 = (self.bank_registers[7] % 64) as usize * 0x2000;
            let second_last = bank_start_from_end(self.prg_rom_size as usize, 0x4000);
            let last = bank_start_from_end(self.prg_rom_size as usize, 0x2000);
            let window = (address - 0x8000) / 0x2000;
            let start = if window == 0 {
                if self.prg_mode_swapped {
                    second_last
                } else {
                    r6
                }
            } else if window == 1 {
                r7
            } else if window == 2 {
                if self.prg_mode_swapped {
                    r6
                } else {
                    second_last
                }
            } else {
                last
            };
            CpuTarget::PrgRom(start + (address % 0x2000) as usize)
        }
    }

    pub fn map_ppu_address(&self, address: u16) -> (target: PpuTarget)
        ensures
            target == self@.ppu_target(address),
    {
        let address = address % 0x4000;
        if address < 0x2000 {
            let slot = (address / 0x400) as usize;
            let slot = if self.chr_mode_inverted {
                (slot + 4) % 8
            } else {
                slot
            };
            let bank: usize = if slot < 2 {
                (self.bank_registers[0] / 2 * 2) as usize + slot
            } else if slot < 4 {
                (self.bank_registers[1] / 2 * 2) as usize + (slot - 2)
            } else {
                self.bank_registers[slot - 2] as usize
            };
            self.chr_type.to_target(bank * 0x400 + (address % 0x400) as usize)
        } else {
            self.nametable_mirroring.to_target(address)
        }
    }

    /// Takes a CPU write to `address` into the registers.
    pub fn write_register(&mut self, address: u16, value: u8)
        ensures
            final(self)@ == old(self)@.after_cpu_write(address, value),
    {
        if address < 0x8000 {
            return ;
        }
        let region = (address - 0x8000) / 0x2000;
        let odd = address % 2 == 1;
        if region == 0 && !odd {
            self.bank_select = value % 8;
            self.prg_mode_swapped = (value / 0x40) % 2 == 1;
            self.chr_mode_inverted = value >= 0x80;
        } else if region == 0 {
            let index = (self.bank_select % 8) as usize;
            self.bank_registers[index] = value;
        } else if region == 1 && !odd {
            self.nametable_mirroring = if value % 2 == 1 {
                NametableMirroring::Horizontal
            } else {
                NametableMirroring::Vertical
            };
        } else if region == 1 {
        } else if region == 2 && !odd {
            self.irq_latch = value;
        } else if region == 2 {
            self.irq_counter = 0;
            self.irq_reload = true;
        } else if !odd {
            self.irq_enabled = false;
            self.interrupt_flag = false;
        } else {
            self.irq_enabled = true;
        }
    }

    /// Clocks the scanline counter.
    fn clock_irq(&mut self)
        ensures
            final(self)@ == old(self)@.clocked(),
    {
        let before = self.irq_counter;
        let reload = self.irq_reload;
        if before == 0 || reload {
            self.irq_counter = self.irq_latch;
        } else {
            self.irq_counter = before - 1;
        }
        self.irq_reload = false;
        if self.irq_counter == 0 && self.irq_enabled && (self.sub_mapper_number
            != SUB_MAPPER_ALTERNATE_IRQ || before > 0 || reload) {
            self.interrupt_flag = true;
        }
    }

    /// Takes note of address line 12.
    pub fn process_a12(&mut self, high: bool)
        ensures
            final(self)@ == old(self)@.after_a12(high),
    {
        if high {
            let clock = !self.a12_high && self.a12_low_ticks >= A12_FILTER;
            self.a12_high = true;
            self.a12_low_ticks = 0;
            if clock {
                self.clock_irq();
            }
        } else {
            self.a12_high = false;
        }
    }

    pub fn tick(&mut self)
        ensures
            final(self)@ == old(self)@.after_tick(),
    {
        if !self.a12_high && self.a12_low_ticks < 255 {
            self.a12_low_ticks = self.a12_low_ticks + 1;
        }
    }
}

impl MapperImpl<Mmc3> {
    pub fn read_cpu_address(&self, address: u16) -> (value: u8)
        ensures
            value == self.cartridge@.cpu_cell(self.data@.cpu_target(address)),
    {
        self.cartridge.read_cpu(self.data.map_cpu_address(address))
    }

    pub fn write_cpu_address(&mut self, address: u16, value: u8)
        ensures
            final(self).data@ == old(self).data@.after_cpu_write(address, value),
            final(self).cartridge@ == old(self).cartridge@.cpu_store(
                old(self).data@.cpu_target(address),
                value,
            ),
    {
        let target = self.data.map_cpu_address(address);
        self.cartridge.write_cpu(target, value);
        self.data.write_register(address, value);
    }

    /// Reads for the PPU; the board sees the address go by.
    pub fn read_ppu_address(&mut self, address: u16, vram: &[u8; 2048]) -> (value: u8)
        ensures
            value == old(self).cartridge@.ppu_cell(old(self).data@.ppu_target(address), vram@),
            final(self).data@ == old(self).data@.after_ppu_address(address),
            final(self).cartridge@ == old(self).cartridge@,
    {
        let value = self.cartridge.read_ppu(self.data.map_ppu_address(address), vram);
        self.data.process_a12((address / 0x1000) % 2 == 1);
        value
    }

    /// Writes for the PPU; the board sees the address go by.
    pub fn write_ppu_address(&mut self, address: u16, value: u8, vram: &mut [u8; 2048])
        ensures
            final(self).data@ == old(self).data@.after_ppu_address(address),
            final(self).cartridge@ == old(self).cartridge@.ppu_store(
                old(self).data@.ppu_target(address),
                value,
            ),
            final(vram)@ == vram_store(old(vram)@, old(self).data@.ppu_target(address), value),
    {
        let target = self.data.map_ppu_address(address);
        self.cartridge.write_ppu(target, value, vram);
        self.data.process_a12((address / 0x1000) % 2 == 1);
    }

    pub fn tick(&mut self)
        ensures
            final(self).data@ == old(self).data@.after_tick(),
            final(self).cartridge@ == old(self).cartridge@,
    {
        self.data.tick();
    }

    pub fn interrupt_flag(&self) -> (flag: bool)
        ensures
            flag == self.data@.interrupt_flag,
    {
        self.data.interrupt_flag
    }

    pub fn process_ppu_addr_update(&mut self, value: u8, write_toggle: PpuWriteToggle)
        ensures
            final(self).data@ == old(self).data@.after_ppu_addr_update(value, write_toggle),
            final(self).cartridge@ == old(self).cartridge@,
    {
        match write_toggle {
            PpuWriteToggle::First => {
                self.data.process_a12((value / 0x10) % 2 == 1);
            },
            PpuWriteToggle::Second => {},
        }
    }

    pub fn process_ppu_addr_increment(&mut self, new_ppu_addr: u16)
        ensures
            final(self).data@ == old(self).data@.after_ppu_address(new_ppu_addr),
            final(self).cartridge@ == old(self).cartridge@,
    {
        self.data.process_a12((new_ppu_addr / 0x1000) % 2 == 1);
    }
}

} // verus!
