//! Bus-wide properties that relate several operations, proved over the
//! mathematical model [`MemModel`].
//!
//! Each law is stated over the same model that the public contracts of
//! [`crate::memory::Memory`] speak of, so it applies to any sequence of
//! bus operations.

use vstd::prelude::*;

use crate::mbc::MBC;
use crate::memory::{MemModel, Interrupt, spec_interrupt_mask};

verus! {

/// Round-trip through the non-banked region: on a controller-less cartridge,
/// writing any byte anywhere in `[0x0000, 0x4000)` and reading the same
/// address back yields that byte.
///
/// A controller chip would intercept the write as a control command, so the
/// law holds of the `RomOnly` cartridge, where the region is plain storage.
pub proof fn lemma_non_banked_round_trip(m: MemModel, addr: u16, val: u8)
    requires
        m.wf(),
        !m.dma_transfer,
        m.mbc == MBC::RomOnly,
        addr < 0x4000,
    ensures
        m.write_byte(addr, val).read_byte(addr) == val,
{
}

/// Bank isolation: on a controller-less cartridge with bank 0 active, a
/// write into the banked window lands in bank 0's backing storage. Switching
/// to bank 1 reads a distinct cell, untouched by the write; switching back
/// to bank 0 returns the written byte again.
pub proof fn lemma_bank_isolation(m: MemModel, addr: u16, val: u8)
    requires
        m.wf(),
        !m.dma_transfer,
        m.mbc == MBC::RomOnly,
        m.current_bank == 0,
        0x4000 <= addr < 0x8000,
    ensures
        ({
            let w = m.write_byte(addr, val);
            let w1 = MemModel { current_bank: 1, ..w };
            let w0 = MemModel { current_bank: 0, ..w1 };
            &&& w.read_byte(addr) == val
            &&& w1.read_byte(addr) == m.mem[addr as int + 0x4000]
            &&& m.mem[addr as int + 0x4000] != val ==> w1.read_byte(addr) != val
            &&& w0.read_byte(addr) == val
        }),
{
    assert((addr as int + 0 * 0x4000) % 0x10000 == addr as int);
    assert((addr as int + 1 * 0x4000) % 0x10000 == addr as int + 0x4000);
}

/// Bank isolation of the read path under an `MBC1` chip in ROM mode: bank 0
/// and bank 1 resolve to distinct flat cells, so the banked window reads
/// distinct backing storage per bank. (The write half of isolation does not
/// hold here: under a controller chip a write into the window is a control
/// command and stores nothing.)
pub proof fn lemma_bank_isolation_mbc1_reads(m: MemModel, addr: u16)
    requires
        m.wf(),
        !m.dma_transfer,
        m.mbc matches MBC::MBC1 { rom_mode: true, .. },
        m.current_bank == 0,
        0x4000 <= addr < 0x8000,
    ensures
        m.read_byte(addr) == m.mem[addr as int],
        (MemModel { current_bank: 1, ..m }).read_byte(addr) == m.mem[addr as int + 0x4000],
{
    assert(0u8 & 0x1F == 0 && 1u8 & 0x1F == 1) by (bit_vector);
    assert((addr as int + 0 * 0x4000) % 0x10000 == addr as int);
    assert((addr as int + 1 * 0x4000) % 0x10000 == addr as int + 0x4000);
}

/// I/O window isolation, one direction: a write into the I/O register
/// window changes no byte of the flat array, no controller state, no bank
/// selection and not the interrupt-enable register, so every read outside
/// the window returns what it did before.
pub proof fn lemma_io_write_isolated(m: MemModel, addr: u16, val: u8)
    requires
        m.wf(),
        0xFF00 <= addr < 0xFFFF,
    ensures
        m.write_byte(addr, val).mem == m.mem,
        m.write_byte(addr, val).mbc == m.mbc,
        m.write_byte(addr, val).current_bank == m.current_bank,
        m.write_byte(addr, val).interrupt_enable == m.interrupt_enable,
        forall|a: u16| !(0xFF00 <= a < 0xFFFF) ==> m.write_byte(addr, val).read_byte(a)
            == m.read_byte(a),
{
}

/// I/O window isolation, the other direction: a write anywhere below the
/// I/O window leaves every I/O register as it was.
pub proof fn lemma_memory_write_preserves_io(m: MemModel, addr: u16, val: u8)
    requires
        m.wf(),
        addr < 0xFF00,
    ensures
        m.write_byte(addr, val).registers == m.registers,
        forall|a: u16| 0xFF00 <= a < 0xFFFF ==> m.write_byte(addr, val).read_byte(a)
            == m.read_byte(a),
{
}

/// Word round-trip: on a controller-less cartridge with bank 0 active,
/// writing a word and reading it back at the same address yields the word,
/// the low byte standing at `addr` and the high byte at `addr + 1`
/// (little-endian).
pub proof fn lemma_word_round_trip(m: MemModel, addr: u16, val: u16)
    requires
        m.wf(),
        !m.dma_transfer,
        m.mbc == MBC::RomOnly,
        m.current_bank == 0,
        addr < 0xFFFF,
    ensures
        ({
            let w = m.write_word(addr, val);
            &&& w.read_byte(addr) == (val & 0xFF) as u8
            &&& w.read_byte((addr + 1) as u16) == (val >> 8) as u8
            &&& w.read_word(addr) == val
        }),
{
    let lo = (val & 0xFF) as u8;
    let hi = (val >> 8) as u8;
    assert((addr as int + 0 * 0x4000) % 0x10000 == addr as int);
    assert(((addr + 1) as int + 0 * 0x4000) % 0x10000 == (addr + 1) as int);
    assert(((hi as u16) << 8) | (lo as u16) == val) by (bit_vector)
        requires
            lo == (val & 0xFF) as u8,
            hi == (val >> 8) as u8,
    ;
}

/// The enable-nibble convention: on every controller chip, a write into
/// `[0x0000, 0x2000)` opens the RAM gate exactly when the low nibble of the
/// value is `0xA`, and any other nibble closes it.
pub proof fn lemma_enable_nibble(mbc: MBC, addr: u16, val: u8)
    requires
        addr < 0x2000,
        !(mbc is RomOnly),
    ensures
        mbc.spec_set_bank(addr, val).spec_ram_enabled() == ((val & 0x0F) == 0x0A),
{
}

/// Interrupt gating: a write of `val` to the interrupt-enable register at
/// `0xFFFF` enables an interrupt kind exactly when `val` has that kind's
/// bit set; with the bit clear, `trigger_interrupt` promises (in its own
/// contract) to leave the bus unchanged.
pub proof fn lemma_interrupt_gating(m: MemModel, val: u8, interrupt: Interrupt)
    requires
        m.wf(),
        !m.dma_transfer,
    ensures
        m.write_byte(0xFFFF, val).interrupt_enabled(interrupt) == (val & spec_interrupt_mask(
            interrupt,
        ) != 0),
{
}

} // verus!
