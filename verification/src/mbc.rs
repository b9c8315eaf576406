//! Cartridge bank controllers.
//!
//! A bank controller interprets CPU writes into the cartridge address range
//! `[0x0000, 0x8000)` as control commands, and resolves which cartridge bank
//! is visible in the banked window `[0x4000, 0x8000)`. The variants model the
//! controller chips found on real cartridges; `RomOnly` is a plain cartridge
//! with no controller at all, whose low address range is ordinary storage.

use vstd::prelude::*;

verus! {

/// A memory bank controller, selected once when the bus is constructed.
///
/// Each variant carries its own control registers: the current ROM bank,
/// the current RAM bank where the chip has one, the RAM-enable gate, and
/// for `MBC1` the ROM/RAM mode switch.
#[derive(Clone, Copy, PartialEq, Eq, Structural, Debug)]
pub enum MBC {
    RomOnly,
    MBC1 { rom_bank: u8, ram_bank: u8, ram_enable: bool, rom_mode: bool },
    MBC2 { rom_bank: u8, ram_enable: bool },
    MBC3 { rom_bank: u8, ram_bank: u8, ram_enable: bool },
    MBC5 { rom_bank: u16, ram_bank: u8, ram_enable: bool },
}

impl MBC {
    /// The effective bank that a requested bank index resolves to.
    pub open spec fn spec_get_bank(self, bank: u8) -> u8 {
        match self {
            MBC::RomOnly => bank,
            MBC::MBC1 { ram_bank, rom_mode, .. } => {
                if rom_mode {
                    bank & 0x1F
                } else {
                    (bank & 0x03) | (ram_bank << 5)
                }
            },
            MBC::MBC2 { .. } => bank & 0x0F,
            MBC::MBC3 { .. } => bank,
            MBC::MBC5 { .. } => bank,
        }
    }

    /// Whether a write into `[0x0000, 0x8000)` falls through to storage.
    ///
    /// Only a cartridge without a controller stores through; every real
    /// controller treats the whole range as control registers.
    pub open spec fn spec_writes_through(self) -> bool {
        self is RomOnly
    }

    /// The controller state after a control write of `val` at `addr`.
    pub open spec fn spec_set_bank(self, addr: u16, val: u8) -> MBC {
        match self {
            MBC::RomOnly => self,
            MBC::MBC1 { rom_bank, ram_bank, ram_enable, rom_mode } => {
                if addr < 0x2000 {
                    MBC::MBC1 { rom_bank, ram_bank, ram_enable: (val & 0x0F) == 0x0A, rom_mode }
                } else if addr < 0x4000 {
                    MBC::MBC1 { rom_bank: (rom_bank & 0x60) | (val & 0x1F), ram_bank, ram_enable, rom_mode }
                } else if addr < 0x6000 {
                    if rom_mode {
                        MBC::MBC1 { rom_bank: (rom_bank & 0x1F) | ((val & 0x03) << 5), ram_bank, ram_enable, rom_mode }
                    } else {
                        MBC::MBC1 { rom_bank, ram_bank: val & 0x03, ram_enable, rom_mode }
                    }
                } else {
                    MBC::MBC1 { rom_bank, ram_bank, ram_enable, rom_mode: (val & 0x01) == 0x00 }
                }
            },
            MBC::MBC2 { rom_bank, ram_enable } => {
                if addr < 0x2000 {
                    MBC::MBC2 { rom_bank, ram_enable: (val & 0x0F) == 0x0A }
                } else if addr < 0x4000 {
                    MBC::MBC2 { rom_bank: val & 0x0F, ram_enable }
                } else {
                    self
                }
            },
            MBC::MBC3 { rom_bank, ram_bank, ram_enable } => {
                if addr < 0x2000 {
                    MBC::MBC3 { rom_bank, ram_bank, ram_enable: (val & 0x0F) == 0x0A }
                } else if addr < 0x4000 {
                    MBC::MBC3 { rom_bank: val & 0x7F, ram_bank, ram_enable }
                } else if addr < 0x6000 {
                    MBC::MBC3 { rom_bank, ram_bank: val & 0x03, ram_enable }
                } else {
                    self
                }
            },
            MBC::MBC5 { rom_bank, ram_bank, ram_enable } => {
                if addr < 0x2000 {
                    MBC::MBC5 { rom_bank, ram_bank, ram_enable: (val & 0x0F) == 0x0A }
                } else if addr < 0x3000 {
                    MBC::MBC5 { rom_bank: (rom_bank & 0x100) | (val as u16), ram_bank, ram_enable }
                } else if addr < 0x4000 {
                    MBC::MBC5 { rom_bank: (rom_bank & 0x0FF) | (((val & 0x01) as u16) << 8), ram_bank, ram_enable }
                } else if addr < 0x6000 {
                    MBC::MBC5 { rom_bank, ram_bank: val & 0x0F, ram_enable }
                } else {
                    self
                }
            },
        }
    }

    /// The RAM-enable gate of the controller; a cartridge without a
    /// controller has no gate and reports it closed.
    pub open spec fn spec_ram_enabled(self) -> bool {
        match self {
            MBC::RomOnly => false,
            MBC::MBC1 { ram_enable, .. } => ram_enable,
            MBC::MBC2 { ram_enable, .. } => ram_enable,
            MBC::MBC3 { ram_enable, .. } => ram_enable,
            MBC::MBC5 { ram_enable, .. } => ram_enable,
        }
    }

    /// Resolve a requested bank index to the effective bank to read.
    pub fn get_bank(&self, bank: u8) -> (r: u8)
        ensures
            r == self.spec_get_bank(bank),
    {
        match *self {
            MBC::RomOnly => bank,
            MBC::MBC1 { ram_bank, rom_mode, .. } => {
                if rom_mode {
                    bank & 0x1F
                } else {
                    (bank & 0x03) | (ram_bank << 5u8)
                }
            },
            MBC::MBC2 { .. } => bank & 0x0F,
            MBC::MBC3 { .. } => bank,
            MBC::MBC5 { .. } => bank,
        }
    }

    /// Apply a CPU write into the cartridge range `[0x0000, 0x8000)`.
    ///
    /// A controller chip updates its control registers and never touches
    /// storage through this path; a cartridge without a controller stores
    /// the value through to `mem` unchanged.
    pub fn set_bank(&mut self, addr: u16, val: u8, mem: &mut Vec<u8>)
        requires
            addr < 0x8000,
            old(mem).len() == 0x10000,
        ensures
            *final(self) == old(self).spec_set_bank(addr, val),
            final(mem)@ == (if old(self).spec_writes_through() {
                old(mem)@.update(addr as int, val)
            } else {
                old(mem)@
            }),
    {
        let cur: MBC = *self;
        match cur {
            MBC::RomOnly => {
                mem[addr as usize] = val;
            },
            MBC::MBC1 { rom_bank, ram_bank, ram_enable, rom_mode } => {
                if addr < 0x2000 {
                    *self = MBC::MBC1 { rom_bank, ram_bank, ram_enable: (val & 0x0F) == 0x0A, rom_mode };
                } else if addr < 0x4000 {
                    *self = MBC::MBC1 { rom_bank: (rom_bank & 0x60) | (val & 0x1F), ram_bank, ram_enable, rom_mode };
                } else if addr < 0x6000 {
                    if rom_mode {
                        *self = MBC::MBC1 { rom_bank: (rom_bank & 0x1F) | ((val & 0x03) << 5u8), ram_bank, ram_enable, rom_mode };
                    } else {
                        *self = MBC::MBC1 { rom_bank, ram_bank: val & 0x03, ram_enable, rom_mode };
                    }
                } else {
                    *self = MBC::MBC1 { rom_bank, ram_bank, ram_enable, rom_mode: (val & 0x01) == 0x00 };
                }
            },
            MBC::MBC2 { rom_bank, ram_enable } => {
                if addr < 0x2000 {
                    *self = MBC::MBC2 { rom_bank, ram_enable: (val & 0x0F) == 0x0A };
                } else if addr < 0x4000 {
                    *self = MBC::MBC2 { rom_bank: val & 0x0F, ram_enable };
                }
            },
            MBC::MBC3 { rom_bank, ram_bank, ram_enable } => {
                if addr < 0x2000 {
                    *self = MBC::MBC3 { rom_bank, ram_bank, ram_enable: (val & 0x0F) == 0x0A };
                } else if addr < 0x4000 {
                    *self = MBC::MBC3 { rom_bank: val & 0x7F, ram_bank, ram_enable };
                } else if addr < 0x6000 {
                    *self = MBC::MBC3 { rom_bank, ram_bank: val & 0x03, ram_enable };
                }
            },
            MBC::MBC5 { rom_bank, ram_bank, ram_enable } => {
                if addr < 0x2000 {
                    *self = MBC::MBC5 { rom_bank, ram_bank, ram_enable: (val & 0x0F) == 0x0A };
                } else if addr < 0x3000 {
                    *self = MBC::MBC5 { rom_bank: (rom_bank & 0x100) | (val as u16), ram_bank, ram_enable };
                } else if addr < 0x4000 {
                    *self = MBC::MBC5 { rom_bank: (rom_bank & 0x0FF) | (((val & 0x01) as u16) << 8u16), ram_bank, ram_enable };
                } else if addr < 0x6000 {
                    *self = MBC::MBC5 { rom_bank, ram_bank: val & 0x0F, ram_enable };
                }
            },
        }
    }
}

} // verus!
