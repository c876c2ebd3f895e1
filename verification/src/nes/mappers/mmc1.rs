//! MMC1: registers loaded bit by bit through a serial port.

use vstd::prelude::*;
use crate::nes::cartridge::{vram_store, MapperImpl};
use crate::nes::mappers::{
    bank_from_end, bank_start_from_end, ChrType, CpuTarget, NametableMirroring, PpuTarget,
};

verus! {

/// How the PRG-ROM window from 0x8000 is divided.
#[derive(Debug, Clone, Copy, PartialEq, Eq, Structural)]
pub enum Mmc1PrgBankingMode {
    /// One switchable 32 KiB bank.
    Switch32Kb,
    /// The first 16 KiB bank at 0x8000, a switchable bank at 0xC000.
    Switch16KbFirstBankFixed,
    /// A switchable 16 KiB bank at 0x8000, the last bank at 0xC000.
    Switch16KbLastBankFixed,
}

/// How the pattern tables are divided.
#[derive(Debug, Clone, Copy, PartialEq, Eq, Structural)]
pub enum Mmc1ChrBankingMode {
    /// One switchable 8 KiB bank.
    Single8Kb,
    /// Two switchable 4 KiB banks.
    Two4Kb,
}

#[derive(Debug, Clone, Copy, PartialEq, Eq, Structural)]
pub struct Mmc1 {
    pub chr_type: ChrType,
    /// The bits shifted in so far; the first bit written ends up lowest.
    pub shift_register: u8,
    pub shift_register_len: u8,
    /// The serial port was written in the CPU cycle that is running.
    pub written_this_cycle: bool,
    /// The serial port was written in the CPU cycle before.
    pub written_last_cycle: bool,
    pub nametable_mirroring: NametableMirroring,
    pub prg_banking_mode: Mmc1PrgBankingMode,
    pub chr_banking_mode: Mmc1ChrBankingMode,
    pub chr_bank_0: u8,
    pub chr_bank_1: u8,
    pub prg_bank: u8,
}

impl Mmc1 {
    /// The board at power-on: an empty serial port, the last PRG bank fixed,
    /// one 8 KiB CHR bank, a single screen.
    pub open spec fn initial(chr_type: ChrType) -> Self {
        Mmc1 {
            chr_type,
            shift_register: 0,
            shift_register_len: 0,
            written_this_cycle: false,
            written_last_cycle: false,
            nametable_mirroring: NametableMirroring::SingleScreen0,
            prg_banking_mode: Mmc1PrgBankingMode::Switch16KbLastBankFixed,
            chr_banking_mode: Mmc1ChrBankingMode::Single8Kb,
            chr_bank_0: 0,
            chr_bank_1: 0,
            prg_bank: 0,
        }
    }

    pub fn new(chr_type: ChrType) -> (mmc1: Self)
        ensures
            mmc1 == Mmc1::initial(chr_type),
    {
        Self {
            chr_type,
            shift_register: 0,
            shift_register_len: 0,
            written_this_cycle: false,
            written_last_cycle: false,
            nametable_mirroring: NametableMirroring::SingleScreen0,
            prg_banking_mode: Mmc1PrgBankingMode::Switch16KbLastBankFixed,
            chr_banking_mode: Mmc1ChrBankingMode::Single8Kb,
            chr_bank_0: 0,
            chr_bank_1: 0,
            prg_bank: 0,
        }
    }

    /// Nothing has been shifted in.
    pub open spec fn serial_port_idle(self) -> bool {
        self.shift_register == 0 && self.shift_register_len == 0
    }

    /// The registers after the five-bit `value` is loaded into the control
    /// register: bits 1..0 choose the mirroring, bits 3..2 the PRG mode and
    /// bit 4 the CHR mode.
    pub open spec fn control_loaded(self, value: u8) -> Self {
        Mmc1 {
            nametable_mirroring: match value % 4 {
                0 => NametableMirroring::SingleScreen0,
                1 => NametableMirroring::SingleScreen1,
                2 => NametableMirroring::Vertical,
                _ => NametableMirroring::Horizontal,
            },
            prg_banking_mode: match (value / 4) % 4 {
                2 => Mmc1PrgBankingMode::Switch16KbFirstBankFixed,
                3 => Mmc1PrgBankingMode::Switch16KbLastBankFixed,
                _ => Mmc1PrgBankingMode::Switch32Kb,
            },
            chr_banking_mode: if (value / 16) % 2 == 1 {
                Mmc1ChrBankingMode::Two4Kb
            } else {
                Mmc1ChrBankingMode::Single8Kb
            },
            ..self
        }
    }

    /// The registers after `value` is loaded into the register that bits 14
    /// and 13 of `address` choose: control, CHR bank 0, CHR bank 1 or PRG
    /// bank.
    pub open spec fn register_loaded(self, address: u16, value: u8) -> Self {
        match (address / 0x2000) % 4 {
            0 => self.control_loaded(value),
            1 => Mmc1 { chr_bank_0: value, ..self },
            2 => Mmc1 { chr_bank_1: value, ..self },
            _ => Mmc1 { prg_bank: value, ..self },
        }
    }

    /// The registers after the CPU writes `value` to `address`.
    ///
    /// Only writes from 0x8000 up reach the serial port, and each marks the
    /// running cycle as written. A write in the cycle after another such
    /// write does nothing more. A write with bit 7 set empties the port and
    /// fixes the last PRG bank. Any other write shifts its lowest bit in, and
    /// the fifth in a row loads the five bits into the register that its own
    /// address chooses and empties the port.
    pub open spec fn after_cpu_write(self, address: u16, value: u8) -> Self {
        if address < 0x8000 {
            self
        } else if self.written_last_cycle {
            Mmc1 { written_this_cycle: true, ..self }
        } else if value >= 0x80 {
            Mmc1 {
                written_this_cycle: true,
                shift_register: 0,
                shift_register_len: 0,
                prg_banking_mode: Mmc1PrgBankingMode::Switch16KbLastBankFixed,
                ..self
            }
        } else {
            let shifted = (self.shift_register / 2 + (value % 2) * 16) as u8;
            if self.shift_register_len >= 4 {
                (Mmc1 {
                    written_this_cycle: true,
                    shift_register: 0,
                    shift_register_len: 0,
                    ..self
                }).register_loaded(address, shifted)
            } else {
                Mmc1 {
                    written_this_cycle: true,
                    shift_register: shifted,
                    shift_register_len: (self.shift_register_len + 1) as u8,
                    ..self
                }
            }
        }
    }

    /// The registers after a CPU cycle ends.
    pub open spec fn after_tick_cpu(self) -> Self {
        Mmc1 {
            written_last_cycle: self.written_this_cycle,
            written_this_cycle: false,
            ..self
        }
    }

    /// PRG-RAM from 0x6000; from 0x8000 the PRG-ROM of `prg_rom_len` bytes as
    /// the PRG mode divides it, banks being numbered by the low four bits of
    /// the PRG bank register.
    pub open spec fn cpu_target(self, prg_rom_len: usize, address: u16) -> CpuTarget {
        let bank = self.prg_bank % 16;
        if address < 0x6000 {
            CpuTarget::Unmapped
        } else if address < 0x8000 {
            CpuTarget::PrgRam((address - 0x6000) as usize)
        } else {
            match self.prg_banking_mode {
                Mmc1PrgBankingMode::Switch32Kb => CpuTarget::PrgRom(
                    ((bank / 2) * 0x8000 + (address - 0x8000)) as usize,
                ),
                Mmc1PrgBankingMode::Switch16KbFirstBankFixed => if address < 0xC000 {
                    CpuTarget::PrgRom((address - 0x8000) as usize)
                } else {
                    CpuTarget::PrgRom((bank * 0x4000 + (address - 0xC000)) as usize)
                },
                Mmc1PrgBankingMode::Switch16KbLastBankFixed => if address < 0xC000 {
                    CpuTarget::PrgRom((bank * 0x4000 + (address - 0x8000)) as usize)
                } else {
                    CpuTarget::PrgRom(
                        (bank_from_end(prg_rom_len, 0x4000) + (address - 0xC000)) as usize,
                    )
                },
            }
        }
    }

    /// The pattern tables below 0x2000 as the CHR mode divides them, the
    /// nametables above. Only the low 14 bits of the address count.
    pub open spec fn ppu_target(self, address: u16) -> PpuTarget {
        let address = address % 0x4000;
        if address < 0x2000 {
            match self.chr_banking_mode {
                Mmc1ChrBankingMode::Single8Kb => self.chr_type.target(
                    ((self.chr_bank_0 / 2) * 0x2000 + address) as usize,
                ),
                Mmc1ChrBankingMode::Two4Kb => if address < 0x1000 {
                    self.chr_type.target((self.chr_bank_0 * 0x1000 + address) as usize)
                } else {
                    self.chr_type.target((self.chr_bank_1 * 0x1000 + (address - 0x1000)) as usize)
                },
            }
        } else {
            self.nametable_mirroring.target(address)
        }
    }

    pub fn map_cpu_address(self, prg_rom_len: usize, address: u16) -> (target: CpuTarget)
        ensures
            target == self.cpu_target(prg_rom_len, address),
    {
        let bank = (self.prg_bank % 16) as usize;
        if address < 0x6000 {
            CpuTarget::Unmapped
        } else if address < 0x8000 {
            CpuTarget::PrgRam((address - 0x6000) as usize)
        } else {
            match self.prg_banking_mode {
                Mmc1PrgBankingMode::Switch32Kb => CpuTarget::PrgRom(
                    (bank / 2) * 0x8000 + (address - 0x8000) as usize,
                ),
                Mmc1PrgBankingMode::Switch16KbFirstBankFixed => if address < 0xC000 {
                    CpuTarget::PrgRom((address - 0x8000) as usize)
                } else {
                    CpuTarget::PrgRom(bank * 0x4000 + (address - 0xC000) as usize)
                },
                Mmc1PrgBankingMode::Switch16KbLastBankFixed => if address < 0xC000 {
                    CpuTarget::PrgRom(bank * 0x4000 + (address - 0x8000) as usize)
                } else {
                    let last = bank_start_from_end(prg_rom_len, 0x4000);
                    CpuTarget::PrgRom(last + (address - 0xC000) as usize)
                },
            }
        }
    }

    pub fn map_ppu_address(self, address: u16) -> (target: PpuTarget)
        ensures
            target == self.ppu_target(address),
    {
        let address = address % 0x4000;
        if address < 0x2000 {
            match self.chr_banking_mode {
                Mmc1ChrBankingMode::Single8Kb => self.chr_type.to_target(
                    (self.chr_bank_0 / 2) as usize * 0x2000 + address as usize,
                ),
                Mmc1ChrBankingMode::Two4Kb => if address < 0x1000 {
                    self.chr_type.to_target(self.chr_bank_0 as usize * 0x1000 + address as usize)
                } else {
                    self.chr_type.to_target(
                        self.chr_bank_1 as usize * 0x1000 + (address - 0x1000) as usize,
                    )
                },
            }
        } else {
            self.nametable_mirroring.to_target(address)
        }
    }

    /// Loads `value` into the control register.
    fn load_control(&mut self, value: u8)
        ensures
            *final(self) == old(self).control_loaded(value),
    {
        self.nametable_mirroring = match value % 4 {
            0 => NametableMirroring::SingleScreen0,
            1 => NametableMirroring::SingleScreen1,
            2 => NametableMirroring::Vertical,
            _ => NametableMirroring::Horizontal,
        };
        self.prg_banking_mode = match (value / 4) % 4 {
            2 => Mmc1PrgBankingMode::Switch16KbFirstBankFixed,
            3 => Mmc1PrgBankingMode::Switch16KbLastBankFixed,
            _ => Mmc1PrgBankingMode::Switch32Kb,
        };
        self.chr_banking_mode = if (value / 16) % 2 == 1 {
            Mmc1ChrBankingMode::Two4Kb
        } else {
            Mmc1ChrBankingMode::Single8Kb
        };
    }

    /// Takes a CPU write to `address` into the registers.
    pub fn write_register(&mut self, address: u16, value: u8)
        ensures
            *final(self) == old(self).after_cpu_write(address, value),
    {
        if address < 0x8000 {
            return ;
        }
        self.written_this_cycle = true;
        if self.written_last_cycle {
            return ;
        }
        if value >= 0x80 {
            self.shift_register = 0;
            self.shift_register_len = 0;
            self.prg_banking_mode = Mmc1PrgBankingMode::Switch16KbLastBankFixed;
            return ;
        }
        let shifted: u8 = self.shift_register / 2 + (value % 2) * 16;
        if self.shift_register_len >= 4 {
            self.shift_register = 0;
            self.shift_register_len = 0;
            match (address / 0x2000) % 4 {
                0 => self.load_control(shifted),
                1 => {
                    self.chr_bank_0 = shifted;
                },
                2 => {
                    self.chr_bank_1 = shifted;
                },
                _ => {
                    self.prg_bank = shifted;
                },
            }
        } else {
            self.shift_register = shifted;
            self.shift_register_len = self.shift_register_len + 1;
        }
    }

    pub fn tick_cpu(&mut self)
        ensures
            *final(self) == old(self).after_tick_cpu(),
    {
        self.written_last_cycle = self.written_this_cycle;
        self.written_this_cycle = false;
    }
}

impl MapperImpl<Mmc1> {
    pub fn read_cpu_address(&self, address: u16) -> (value: u8)
        ensures
            value == self.cartridge@.cpu_cell(
                self.data.cpu_target(self.cartridge.prg_rom.len(), address),
            ),
    {
        self.cartridge.read_cpu(self.data.map_cpu_address(self.cartridge.prg_rom.len(), address))
    }

    pub fn write_cpu_address(&mut self, address: u16, value: u8)
        ensures
            final(self).data == old(self).data.after_cpu_write(address, value),
            final(self).cartridge@ == old(self).cartridge@.cpu_store(
                old(self).data.cpu_target(old(self).cartridge.prg_rom.len(), address),
                value,
            ),
    {
        let target = self.data.map_cpu_address(self.cartridge.prg_rom.len(), address);
        self.cartridge.write_cpu(target, value);
        self.data.write_register(address, value);
    }

    pub fn read_ppu_address(&self, address: u16, vram: &[u8; 2048]) -> (value: u8)
        ensures
            value == self.cartridge@.ppu_cell(self.data.ppu_target(address), vram@),
    {
        self.cartridge.read_ppu(self.data.map_ppu_address(address), vram)
    }

    pub fn write_ppu_address(&mut self, address: u16, value: u8, vram: &mut [u8; 2048])
        ensures
            final(self).data == old(self).data,
            final(self).cartridge@ == old(self).cartridge@.ppu_store(
                old(self).data.ppu_target(address),
                value,
            ),
            final(vram)@ == vram_store(old(vram)@, old(self).data.ppu_target(address), value),
    {
        let target = self.data.map_ppu_address(address);
        self.cartridge.write_ppu(target, value, vram);
    }

    pub fn tick_cpu(&mut self)
        ensures
            final(self).data == old(self).data.after_tick_cpu(),
            final(self).cartridge@ == old(self).cartridge@,
    {
        self.data.tick_cpu();
    }
}

} // verus!
