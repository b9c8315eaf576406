use membus::mbc::MBC;
use membus::memory::{Interrupt, Memory};

#[test]
pub fn test_non_banked_memory() {
    let mut memory = Memory::new();
    let test_addr = 0x2000; // Any address in the non-banked memory range (0x0000 - 0x3FFF)
    let test_val = 0xAA;

    // Write a value to the test address
    memory.write_byte(test_addr, test_val);

    // Read from the test address and verify the correct value is returned
    assert_eq!(memory.read_byte(test_addr), test_val);
}

#[test]
pub fn test_banked_memory() {
    let mut memory = Memory::new();
    let test_addr = 0x4000; // Any address in the banked memory range (0x4000 - 0x7FFF)
    let test_val = 0xAA;

    // Write a value to the test address
    memory.write_byte(test_addr, test_val);

    // Change the current bank number and read from the same address
    memory.set_bank(1);
    assert_ne!(memory.read_byte(test_addr), test_val);

    // Change the current bank number back and verify the correct value is returned
    memory.set_bank(0);
    assert_eq!(memory.read_byte(test_addr), test_val);
}

#[test]
pub fn test_io_registers() {
    let mut memory = Memory::new();
    let test_addr = 0xFF00; // Any address in the I/O registers range (0xFF00 - 0xFF7F)
    let test_val = 0xAA;

    // Write a value to the test address
    memory.write_byte(test_addr, test_val);

    // Read from the test address and verify the correct value is returned
    assert_eq!(memory.read_byte(test_addr), test_val);
}

#[test]
pub fn test_read_write_word() {
    let mut memory = Memory::new();
    let test_addr = 0x2000; // Any address in the non-banked memory range (0x0000 - 0x3FFF)
    let test_val = 0xAABB;

    // Write a value to the test address using write_word
    memory.write_word(test_addr, test_val);

    // Read from the test address using read_word and verify the correct value is returned
    assert_eq!(memory.read_word(test_addr), test_val);
}

#[test]
fn test_round_trip_edge_addresses() {
    let mut memory = Memory::new();
    for addr in [0x0000u16, 0x3FFF, 0x4000, 0x7FFF, 0x8000, 0xFEFF, 0xFF00, 0xFFFE, 0xFFFF] {
        memory.write_byte(addr, 0x5C);
        assert_eq!(memory.read_byte(addr), 0x5C);
        memory.write_byte(addr, 0x00);
    }
}

#[test]
fn test_word_little_endian_bytes() {
    let mut memory = Memory::new();
    memory.write_word(0x2000, 0xAABB);
    assert_eq!(memory.read_byte(0x2000), 0xBB);
    assert_eq!(memory.read_byte(0x2001), 0xAA);
    assert_eq!(memory.read_word(0x2000), 0xAABB);
}

#[test]
fn test_word_across_io_boundary() {
    // The two bytes of one word fall in different decoding regions:
    // the low byte in plain storage, the high byte in the I/O window.
    let mut memory = Memory::new();
    memory.write_word(0xFEFF, 0xAABB);
    assert_eq!(memory.read_byte(0xFEFF), 0xBB);
    assert_eq!(memory.read_byte(0xFF00), 0xAA);
    assert_eq!(memory.read_word(0xFEFF), 0xAABB);
}

#[test]
fn test_word_reaches_interrupt_enable() {
    // At 0xFFFE the high byte lands in the interrupt-enable register.
    let mut memory = Memory::new();
    memory.write_word(0xFFFE, 0x01AB);
    assert_eq!(memory.read_byte(0xFFFE), 0xAB);
    assert_eq!(memory.read_byte(0xFFFF), 0x01);
    assert!(memory.check_interrupt(Interrupt::VBlank));
    assert_eq!(memory.read_word(0xFFFE), 0x01AB);
}

#[test]
fn test_io_window_isolation() {
    let mut memory = Memory::new();
    memory.write_byte(0x2000, 0x11);
    memory.write_byte(0x4000, 0x22);
    memory.write_byte(0x9000, 0x33);

    // Writes into the I/O window leave the other regions alone
    memory.write_byte(0xFF10, 0x44);
    assert_eq!(memory.read_byte(0x2000), 0x11);
    assert_eq!(memory.read_byte(0x4000), 0x22);
    assert_eq!(memory.read_byte(0x9000), 0x33);

    // And writes outside it leave the I/O registers alone
    memory.write_byte(0x9001, 0x55);
    assert_eq!(memory.read_byte(0xFF10), 0x44);
}

#[test]
fn test_dma_transfer_leaves_destination_unchanged() {
    let mut memory = Memory::new();
    // Pre-fill the sprite table and a source page with distinct patterns
    for i in 0u16..0xA0 {
        memory.write_byte(0xFE00 + i, i as u8);
        memory.write_byte(0x2000 + i, 0xC0u8.wrapping_add(i as u8));
    }

    memory.dma_transfer(0x20);

    // The in-progress flag gates the copy's own reads and writes, so the
    // destination keeps its pre-call values
    for i in 0u16..0xA0 {
        assert_eq!(memory.read_byte(0xFE00 + i), i as u8);
    }
}

#[test]
fn test_enable_nibble_type2() {
    let mut mbc = MBC::MBC2 { rom_bank: 0, ram_enable: false };
    let mut mem: Vec<u8> = vec![0u8; 0x10000];

    mbc.set_bank(0x1000, 0x0A, &mut mem);
    assert_eq!(mbc, MBC::MBC2 { rom_bank: 0, ram_enable: true });

    mbc.set_bank(0x1000, 0x05, &mut mem);
    assert_eq!(mbc, MBC::MBC2 { rom_bank: 0, ram_enable: false });

    // Only the exact nibble 0xA enables: 0x1A has it, 0xA0 does not
    mbc.set_bank(0x0000, 0x1A, &mut mem);
    assert_eq!(mbc, MBC::MBC2 { rom_bank: 0, ram_enable: true });
    mbc.set_bank(0x1FFF, 0xA0, &mut mem);
    assert_eq!(mbc, MBC::MBC2 { rom_bank: 0, ram_enable: false });
}

#[test]
fn test_interrupt_gating() {
    let mut memory = Memory::new();

    // With the enable bit clear, triggering changes nothing
    memory.trigger_interrupt(Interrupt::VBlank);
    assert_eq!(memory.read_byte(0xFF0F), 0x00);

    // After enabling bit0, triggering sets bit0 of the flag register
    memory.write_byte(0xFFFF, 0x01);
    memory.trigger_interrupt(Interrupt::VBlank);
    assert_eq!(memory.read_byte(0xFF0F), 0x01);

    // A kind whose bit is still clear stays gated
    memory.write_byte(0xFF0F, 0x00);
    memory.trigger_interrupt(Interrupt::Timer);
    assert_eq!(memory.read_byte(0xFF0F), 0x00);
}

#[test]
fn test_check_interrupt_bits() {
    let mut memory = Memory::new();
    memory.write_byte(0xFFFF, 0x15); // bits 0, 2, 4
    assert!(memory.check_interrupt(Interrupt::VBlank));
    assert!(!memory.check_interrupt(Interrupt::LCDStat));
    assert!(memory.check_interrupt(Interrupt::Timer));
    assert!(!memory.check_interrupt(Interrupt::Serial));
    assert!(memory.check_interrupt(Interrupt::Joypad));
}

#[test]
fn test_every_kind_sets_bit0() {
    let mut memory = Memory::new();
    memory.write_byte(0xFFFF, 0x1F); // enable all five kinds
    memory.trigger_interrupt(Interrupt::Joypad);
    assert_eq!(memory.read_byte(0xFF0F), 0x01);
}

#[test]
fn test_mbc1_resolve() {
    let rom_mode = MBC::MBC1 { rom_bank: 0, ram_bank: 2, ram_enable: false, rom_mode: true };
    assert_eq!(rom_mode.get_bank(0x35), 0x15); // masked to 5 bits

    let ram_mode = MBC::MBC1 { rom_bank: 0, ram_bank: 2, ram_enable: false, rom_mode: false };
    assert_eq!(ram_mode.get_bank(0x35), 0x41); // (0x35 & 0x03) | (2 << 5)
}

#[test]
fn test_mbc1_control_writes() {
    let mut mbc = MBC::MBC1 { rom_bank: 0, ram_bank: 0, ram_enable: false, rom_mode: false };
    let mut mem: Vec<u8> = vec![0u8; 0x10000];

    mbc.set_bank(0x2000, 0x15, &mut mem); // low 5 bits of the ROM bank
    assert_eq!(mbc, MBC::MBC1 { rom_bank: 0x15, ram_bank: 0, ram_enable: false, rom_mode: false });

    mbc.set_bank(0x4000, 0x02, &mut mem); // RAM-banking mode: sets the RAM bank
    assert_eq!(mbc, MBC::MBC1 { rom_bank: 0x15, ram_bank: 2, ram_enable: false, rom_mode: false });

    mbc.set_bank(0x6000, 0x00, &mut mem); // switch to ROM mode
    assert_eq!(mbc, MBC::MBC1 { rom_bank: 0x15, ram_bank: 2, ram_enable: false, rom_mode: true });

    mbc.set_bank(0x4000, 0x03, &mut mem); // ROM mode: sets the high ROM bank bits
    assert_eq!(mbc, MBC::MBC1 { rom_bank: 0x75, ram_bank: 2, ram_enable: false, rom_mode: true });

    // Control writes never store through to the backing array
    assert!(mem.iter().all(|&b| b == 0));
}

#[test]
fn test_mbc3_control_writes() {
    let mut mbc = MBC::MBC3 { rom_bank: 0, ram_bank: 0, ram_enable: false };
    let mut mem: Vec<u8> = vec![0u8; 0x10000];

    mbc.set_bank(0x2000, 0xFF, &mut mem); // ROM bank masked to 7 bits
    assert_eq!(mbc, MBC::MBC3 { rom_bank: 0x7F, ram_bank: 0, ram_enable: false });

    mbc.set_bank(0x4000, 0x07, &mut mem); // RAM bank masked to 2 bits
    assert_eq!(mbc, MBC::MBC3 { rom_bank: 0x7F, ram_bank: 3, ram_enable: false });
}

#[test]
fn test_mbc5_nine_bit_rom_bank() {
    let mut mbc = MBC::MBC5 { rom_bank: 0, ram_bank: 0, ram_enable: false };
    let mut mem: Vec<u8> = vec![0u8; 0x10000];

    mbc.set_bank(0x2000, 0xFF, &mut mem); // low 8 bits
    assert_eq!(mbc, MBC::MBC5 { rom_bank: 0x0FF, ram_bank: 0, ram_enable: false });

    mbc.set_bank(0x3000, 0x01, &mut mem); // ninth bit
    assert_eq!(mbc, MBC::MBC5 { rom_bank: 0x1FF, ram_bank: 0, ram_enable: false });

    mbc.set_bank(0x2800, 0x12, &mut mem); // low 8 bits again, ninth bit kept
    assert_eq!(mbc, MBC::MBC5 { rom_bank: 0x112, ram_bank: 0, ram_enable: false });

    mbc.set_bank(0x4000, 0xFF, &mut mem); // RAM bank masked to 4 bits
    assert_eq!(mbc, MBC::MBC5 { rom_bank: 0x112, ram_bank: 0x0F, ram_enable: false });
}

#[test]
fn test_controller_write_is_not_a_store() {
    // With a real controller the whole cartridge range is control
    // registers: the write mutates the chip, not storage
    let mut memory = Memory::with_mbc(MBC::MBC2 { rom_bank: 0, ram_enable: false });
    memory.write_byte(0x1000, 0xAA);
    assert_eq!(memory.read_byte(0x1000), 0x00);
    memory.write_byte(0x4000, 0xAA);
    memory.set_bank(0);
    assert_eq!(memory.read_byte(0x4000), 0x00);
}

#[test]
fn test_mbc1_ram_bank_feeds_resolve() {
    // In RAM-banking mode the controller's RAM bank supplies the upper
    // bits of the effective bank, and the flat index wraps at 64KB
    let mut memory = Memory::with_mbc(
        MBC::MBC1 { rom_bank: 0, ram_bank: 0, ram_enable: false, rom_mode: false },
    );
    memory.write_byte(0x9000, 0x77); // plain store in the unbanked region
    memory.write_byte(0x4100, 0x02); // control write: RAM bank = 2
    memory.set_bank(1);
    // effective bank = (1 & 0x03) | (2 << 5) = 0x41;
    // (0x5000 + 0x41 * 0x4000) mod 0x10000 = 0x9000
    assert_eq!(memory.read_byte(0x5000), 0x77);
}
