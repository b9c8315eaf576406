//! The address bus: a flat 64KB space overlaid with the banked cartridge
//! window, the I/O register window, the interrupt-enable register, and the
//! block-transfer mechanism.
//!
//! Every access goes through `read_byte` / `write_byte`, which dispatch on
//! the address:
//!
//! | range              | meaning                              |
//! |--------------------|--------------------------------------|
//! | `0x0000..0x4000`   | non-banked ROM / control region      |
//! | `0x4000..0x8000`   | banked cartridge window              |
//! | `0x8000..0xFF00`   | unbanked RAM / VRAM / OAM region     |
//! | `0xFF00..0xFFFF`   | memory-mapped I/O registers          |
//! | `0xFFFF`           | interrupt-enable register            |
//!
//! The whole bus state has a mathematical model, [`MemModel`], reached by
//! `@`; each operation's contract says exactly what it returns or how it
//! changes that model.

use vstd::prelude::*;

use crate::mbc::MBC;

verus! {

/// One of the five interrupt kinds, each gated by its own bit of the
/// interrupt-enable register: VBlank=bit0, LCDStat=bit1, Timer=bit2,
/// Serial=bit3, Joypad=bit4.
#[derive(Clone, Copy, PartialEq, Eq, Structural, Debug)]
pub enum Interrupt {
    VBlank,
    LCDStat,
    Timer,
    Serial,
    Joypad,
}

/// The enable-register bit that gates an interrupt kind.
pub open spec fn spec_interrupt_mask(interrupt: Interrupt) -> u8 {
    match interrupt {
        Interrupt::VBlank => 0x01,
        Interrupt::LCDStat => 0x02,
        Interrupt::Timer => 0x04,
        Interrupt::Serial => 0x08,
        Interrupt::Joypad => 0x10,
    }
}

/// The flat index a banked-window address reads from: the requested address
/// offset by a whole bank, wrapped to the 64KB space exactly as the 16-bit
/// offset arithmetic of the bus wraps.
pub open spec fn spec_effective_addr(bank: u8, addr: u16) -> int {
    (addr as int + bank as int * 0x4000) % 0x10000
}

/// The mathematical model of the whole bus state.
#[verifier::ext_equal]
pub ghost struct MemModel {
    pub mem: Seq<u8>,
    pub current_bank: u8,
    pub registers: Seq<u8>,
    pub mbc: MBC,
    pub interrupt_enable: u8,
    pub dma_transfer: bool,
}

impl MemModel {
    /// Well-formedness: the flat array covers the 64KB space and the I/O
    /// window holds its 256 registers.
    pub open spec fn wf(self) -> bool {
        &&& self.mem.len() == 0x10000
        &&& self.registers.len() == 0x100
    }

    /// What a byte read at `addr` returns. While a transfer is in progress
    /// the external bus is held and every read saturates to `0xFF`.
    pub open spec fn read_byte(self, addr: u16) -> u8 {
        if self.dma_transfer {
            0xFF
        } else if addr < 0x4000 {
            self.mem[addr as int]
        } else if addr < 0x8000 {
            self.mem[spec_effective_addr(self.mbc.spec_get_bank(self.current_bank), addr)]
        } else if addr < 0xFF00 {
            self.mem[addr as int]
        } else if addr < 0xFFFF {
            self.registers[addr as int - 0xFF00]
        } else {
            self.interrupt_enable
        }
    }

    /// The bus state after a byte write of `val` at `addr`. While a transfer
    /// is in progress writes are dropped. A write into the cartridge range
    /// goes to the bank controller, which stores through only when the
    /// cartridge has no controller chip.
    pub open spec fn write_byte(self, addr: u16, val: u8) -> MemModel {
        if self.dma_transfer {
            self
        } else if addr < 0x8000 {
            MemModel {
                mbc: self.mbc.spec_set_bank(addr, val),
                mem: if self.mbc.spec_writes_through() {
                    self.mem.update(addr as int, val)
                } else {
                    self.mem
                },
                ..self
            }
        } else if addr < 0xFF00 {
            MemModel { mem: self.mem.update(addr as int, val), ..self }
        } else if addr < 0xFFFF {
            MemModel { registers: self.registers.update(addr as int - 0xFF00, val), ..self }
        } else {
            MemModel { interrupt_enable: val, ..self }
        }
    }

    /// What a word read at `addr` returns: little-endian, each byte read
    /// through the full dispatch independently.
    pub open spec fn read_word(self, addr: u16) -> u16
        recommends
            addr < 0xFFFF,
    {
        ((self.read_byte((addr + 1) as u16) as u16) << 8) | (self.read_byte(addr) as u16)
    }

    /// The bus state after a word write: low byte at `addr`, high byte at
    /// `addr + 1`, each through the full dispatch independently.
    pub open spec fn write_word(self, addr: u16, val: u16) -> MemModel
        recommends
            addr < 0xFFFF,
    {
        self.write_byte(addr, (val & 0xFF) as u8).write_byte((addr + 1) as u16, (val >> 8) as u8)
    }

    /// Whether an interrupt kind's bit of the enable register is set.
    pub open spec fn interrupt_enabled(self, interrupt: Interrupt) -> bool {
        self.interrupt_enable & spec_interrupt_mask(interrupt) != 0
    }
}

/// The address bus. It owns the flat 64KB array (the cartridge region doubles
/// as backing store for bank data), the I/O register window, the
/// interrupt-enable register, the externally selected bank index, its bank
/// controller, and the transfer-in-progress flag.
pub struct Memory {
    mem: Vec<u8>,
    current_bank: u8,
    registers: Vec<u8>,
    mbc: MBC,
    interrupt_enable: u8,
    dma_transfer: bool,
}

impl View for Memory {
    type V = MemModel;

    closed spec fn view(&self) -> MemModel {
        MemModel {
            mem: self.mem@,
            current_bank: self.current_bank,
            registers: self.registers@,
            mbc: self.mbc,
            interrupt_enable: self.interrupt_enable,
            dma_transfer: self.dma_transfer,
        }
    }
}

impl Memory {
    /// Well-formedness of the bus: its model is well-formed.
    pub open spec fn wf(&self) -> bool {
        self@.wf()
    }

    /// A fresh bus with zeroed storage and no bank controller.
    pub fn new() -> (r: Memory)
        ensures
            r.wf(),
            r@.mem.len() == 0x10000,
            forall|i: int| 0 <= i < 0x10000 ==> r@.mem[i] == 0,
            r@.registers.len() == 0x100,
            forall|i: int| 0 <= i < 0x100 ==> r@.registers[i] == 0,
            r@.current_bank == 0,
            r@.mbc == MBC::RomOnly,
            r@.interrupt_enable == 0,
            !r@.dma_transfer,
    {
        Memory::with_mbc(MBC::RomOnly)
    }

    /// A fresh bus with zeroed storage and the given bank controller; the
    /// controller variant is supplied by the cartridge loader and fixed for
    /// the session.
    pub fn with_mbc(mbc: MBC) -> (r: Memory)
        ensures
            r.wf(),
            r@.mem.len() == 0x10000,
            forall|i: int| 0 <= i < 0x10000 ==> r@.mem[i] == 0,
            r@.registers.len() == 0x100,
            forall|i: int| 0 <= i < 0x100 ==> r@.registers[i] == 0,
            r@.current_bank == 0,
            r@.mbc == mbc,
            r@.interrupt_enable == 0,
            !r@.dma_transfer,
    {
        let mem: Vec<u8> = vec![0u8; 65536];
        let registers: Vec<u8> = vec![0u8; 256];
        Memory { mem, current_bank: 0, registers, mbc, interrupt_enable: 0, dma_transfer: false }
    }

    /// Read the byte at `addr`, dispatching on the address range and taking
    /// the bank controller and an in-progress transfer into account.
    pub fn read_byte(&self, addr: u16) -> (r: u8)
        requires
            self.wf(),
        ensures
            r == self@.read_byte(addr),
    {
        if self.dma_transfer {
            return 0xFF;
        }
        if addr < 0x4000 {
            // Non-banked memory, always accessible
            self.mem[addr as usize]
        } else if addr < 0x8000 {
            // Banked memory: the effective bank comes from the controller
            let eff: u8 = self.mbc.get_bank(self.current_bank);
            let idx: usize = ((addr as usize) + (eff as usize) * 0x4000) % 0x10000;
            self.mem[idx]
        } else if addr < 0xFF00 {
            // Remaining memory is not banked
            self.mem[addr as usize]
        } else if addr < 0xFFFF {
            // I/O registers
            self.registers[(addr as usize) - 0xFF00]
        } else {
            // Interrupt enable register
            self.interrupt_enable
        }
    }

    /// Write `val` at `addr`, dispatching on the address range; cartridge
    /// range writes go to the bank controller, and writes during a transfer
    /// are dropped.
    pub fn write_byte(&mut self, addr: u16, val: u8)
        requires
            old(self).wf(),
        ensures
            final(self).wf(),
            final(self)@ == old(self)@.write_byte(addr, val),
    {
        if self.dma_transfer {
            return;
        }
        if addr < 0x8000 {
            // Cartridge range: the controller alone decides whether this is
            // a control write or a store through to backing storage
            self.mbc.set_bank(addr, val, &mut self.mem);
        } else if addr < 0xFF00 {
            // Remaining memory is not banked
            self.mem[addr as usize] = val;
        } else if addr < 0xFFFF {
            // I/O registers
            self.registers[(addr as usize) - 0xFF00] = val;
        } else {
            // Interrupt enable register
            self.interrupt_enable = val;
        }
    }

    /// Select the bank index that the banked window resolves through.
    pub fn set_bank(&mut self, bank: u8)
        ensures
            final(self)@ == (MemModel { current_bank: bank, ..old(self)@ }),
    {
        self.current_bank = bank;
    }

    /// Read the little-endian word at `addr`; the two bytes are dispatched
    /// independently and may fall in different address ranges.
    pub fn read_word(&self, addr: u16) -> (r: u16)
        requires
            self.wf(),
            addr < 0xFFFF,
        ensures
            r == self@.read_word(addr),
    {
        let low: u8 = self.read_byte(addr);
        let high: u8 = self.read_byte(addr + 1);
        ((high as u16) << 8u16) | (low as u16)
    }

    /// Write the little-endian word `val` at `addr`; each byte goes through
    /// the full dispatch and the two may fall in different address ranges.
    pub fn write_word(&mut self, addr: u16, val: u16)
        requires
            old(self).wf(),
            addr < 0xFFFF,
        ensures
            final(self).wf(),
            final(self)@ == old(self)@.write_word(addr, val),
    {
        proof {
            assert((val & 0xFF) < 256 && (val >> 8u16) < 256) by (bit_vector);
        }
        self.write_byte(addr, (val & 0xFF) as u8);
        self.write_byte(addr + 1, (val >> 8u16) as u8);
    }

    /// Whether the enable-register bit of the given interrupt kind is set.
    pub fn check_interrupt(&self, interrupt: Interrupt) -> (r: bool)
        ensures
            r == self@.interrupt_enabled(interrupt),
    {
        let interrupt_flag: u8 = match interrupt {
            Interrupt::VBlank => 0x01,
            Interrupt::LCDStat => 0x02,
            Interrupt::Timer => 0x04,
            Interrupt::Serial => 0x08,
            Interrupt::Joypad => 0x10,
        };
        (self.interrupt_enable & interrupt_flag) != 0
    }

    /// Trigger an interrupt: a no-op unless the kind is enabled; when it is,
    /// bit0 of the interrupt-flag register at `0xFF0F` is set through the
    /// ordinary read/write path (every kind sets the same flag bit).
    pub fn trigger_interrupt(&mut self, interrupt: Interrupt)
        requires
            old(self).wf(),
        ensures
            final(self).wf(),
            !old(self)@.interrupt_enabled(interrupt) ==> final(self)@ == old(self)@,
            old(self)@.interrupt_enabled(interrupt) ==> final(self)@ == old(self)@.write_byte(
                0xFF0F,
                old(self)@.read_byte(0xFF0F) | 0x01,
            ),
    {
        if !self.check_interrupt(interrupt) {
            return;
        }
        // Set the interrupt flag in memory; every kind shares one register
        let flag_addr: u16 = match interrupt {
            Interrupt::VBlank => 0xFF0F,
            Interrupt::LCDStat => 0xFF0F,
            Interrupt::Timer => 0xFF0F,
            Interrupt::Serial => 0xFF0F,
            Interrupt::Joypad => 0xFF0F,
        };
        let flag: u8 = self.read_byte(flag_addr);
        self.write_byte(flag_addr, flag | 0x01);
    }

    /// Copy 160 bytes from `source << 8` into the sprite attribute table at
    /// `0xFE00..0xFEA0`, through the public read/write path.
    ///
    /// The in-progress flag gates that very path, so every source byte reads
    /// as `0xFF` and every destination write is dropped: the transfer leaves
    /// the bus unchanged, and a nested call is ignored. The contract states
    /// this faithfully rather than hiding it.
    pub fn dma_transfer(&mut self, source: u8)
        requires
            old(self).wf(),
        ensures
            final(self).wf(),
            final(self)@ == old(self)@,
    {
        if self.dma_transfer {
            // DMA transfer already in progress
            return;
        }
        self.dma_transfer = true;
        let source_addr: u16 = (source as u16) << 8u16;
        proof {
            assert(((source as u16) << 8u16) <= 0xFF00) by (bit_vector);
        }
        for i in 0xFE00u16..0xFEA0u16
            invariant
                self.wf(),
                self@.dma_transfer,
                self@.mem == old(self)@.mem,
                self@.current_bank == old(self)@.current_bank,
                self@.registers == old(self)@.registers,
                self@.mbc == old(self)@.mbc,
                self@.interrupt_enable == old(self)@.interrupt_enable,
                source_addr <= 0xFF00,
        {
            let b: u8 = self.read_byte(source_addr + (i - 0xFE00));
            self.write_byte(i, b);
        }
        self.dma_transfer = false;
    }
}

} // verus!
