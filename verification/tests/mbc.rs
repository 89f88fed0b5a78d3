use gb_emu::io::mbc::{new, Mbc};
use gb_emu::mmu::{MemRead, MemWrite};

/// A ROM of `banks` 16KB banks in which every byte holds its bank number.
fn banked_rom(banks: usize) -> Vec<u8> {
    let mut rom = Vec::with_capacity(banks * 0x4000);
    for bank in 0..banks {
        for _ in 0..0x4000 {
            rom.push(bank as u8);
        }
    }
    rom
}

/// A 32KB ROM whose bytes run through 0..=250.
fn patterned_rom() -> Vec<u8> {
    (0..0x8000usize).map(|i| (i % 251) as u8).collect()
}

#[test]
fn codes_pick_controllers() {
    assert_eq!(new(0x00, patterned_rom()).get_name(), "ROM Only");
    for code in [0x01u8, 0x02, 0x03] {
        assert_eq!(new(code, patterned_rom()).get_name(), "MBC1");
    }
    for code in [0x0fu8, 0x10, 0x11, 0x12, 0x13] {
        assert_eq!(new(code, patterned_rom()).get_name(), "MBC3");
    }
    for code in [0x19u8, 0x1a, 0x1b, 0x1c, 0x1d, 0x1e] {
        assert_eq!(new(code, patterned_rom()).get_name(), "MBC5");
    }
}

#[test]
fn rom_only_reads_rom_and_ignores_writes() {
    let mut mbc = new(0x00, patterned_rom());
    assert_eq!(mbc.on_read(0x0000), MemRead::Replace(0));
    assert_eq!(mbc.on_read(0x1234), MemRead::Replace((0x1234 % 251) as u8));
    assert_eq!(mbc.on_read(0x7FFF), MemRead::Replace((0x7FFF % 251) as u8));
    assert_eq!(mbc.on_read(0x8000), MemRead::PassThrough);
    assert_eq!(mbc.on_read(0xA000), MemRead::PassThrough);
    assert_eq!(mbc.on_write(0x2000, 0x05), MemWrite::Block);
    assert_eq!(mbc.on_write(0x0000, 0x0A), MemWrite::Block);
    assert_eq!(mbc.on_write(0xA000, 0x42), MemWrite::Block);
    assert_eq!(mbc.on_read(0x4000), MemRead::Replace((0x4000 % 251) as u8));
    assert_eq!(mbc.on_read(0xA000), MemRead::PassThrough);
}

#[test]
fn mbc1_starts_on_bank_one_with_ram_disabled() {
    let mbc = new(0x01, banked_rom(64));
    assert_eq!(mbc.on_read(0x0000), MemRead::Replace(0));
    assert_eq!(mbc.on_read(0x3FFF), MemRead::Replace(0));
    assert_eq!(mbc.on_read(0x4000), MemRead::Replace(1));
    assert_eq!(mbc.on_read(0x7FFF), MemRead::Replace(1));
    assert_eq!(mbc.on_read(0xA000), MemRead::Replace(0xFF));
}

#[test]
fn mbc1_bank_zero_selects_bank_one() {
    let mut mbc = new(0x01, banked_rom(64));
    mbc.on_write(0x2000, 0x05);
    assert_eq!(mbc.on_read(0x4000), MemRead::Replace(5));
    mbc.on_write(0x2000, 0x00);
    assert_eq!(mbc.on_read(0x4000), MemRead::Replace(1));
    // only the low five bits count: 0x20 is bank 0, read as bank 1
    mbc.on_write(0x3FFF, 0x20);
    assert_eq!(mbc.on_read(0x5000), MemRead::Replace(1));
    mbc.on_write(0x2100, 0xE7);
    assert_eq!(mbc.on_read(0x4000), MemRead::Replace(7));
}

#[test]
fn mbc1_upper_bits_in_rom_mode() {
    let mut mbc = new(0x01, banked_rom(0x42));
    mbc.on_write(0x2000, 0x05);
    mbc.on_write(0x4000, 0x01);
    assert_eq!(mbc.on_read(0x4000), MemRead::Replace(0x25));
    // the bank 0 window stays fixed
    assert_eq!(mbc.on_read(0x0000), MemRead::Replace(0));
    // 0x21 after bank 0x20 is asked for
    mbc.on_write(0x2000, 0x00);
    assert_eq!(mbc.on_read(0x4000), MemRead::Replace(0x21));
    // only two bits of the upper register count
    mbc.on_write(0x5FFF, 0xFE);
    assert_eq!(mbc.on_read(0x4000), MemRead::Replace(0x41));
}

#[test]
fn mbc1_ram_mode_moves_upper_bits_to_ram() {
    let mut mbc = new(0x01, banked_rom(64));
    mbc.on_write(0x2000, 0x03);
    mbc.on_write(0x4000, 0x01);
    mbc.on_write(0x0000, 0x0A);
    mbc.on_write(0xA010, 0x11);
    assert_eq!(mbc.on_read(0x4000), MemRead::Replace(0x23));
    mbc.on_write(0x6000, 0x01);
    assert_eq!(mbc.on_read(0x4000), MemRead::Replace(0x03));
    // now in RAM bank 1, which is still blank
    assert_eq!(mbc.on_read(0xA010), MemRead::Replace(0x00));
    mbc.on_write(0xA010, 0x22);
    assert_eq!(mbc.on_read(0xA010), MemRead::Replace(0x22));
    // back to ROM mode: RAM bank 0 again
    mbc.on_write(0x7000, 0x00);
    assert_eq!(mbc.on_read(0xA010), MemRead::Replace(0x11));
}

#[test]
fn mbc1_ram_enable_takes_only_0x0a() {
    let mut mbc = new(0x03, banked_rom(4));
    mbc.on_write(0x1000, 0x1A);
    assert_eq!(mbc.on_read(0xBFFF), MemRead::Replace(0xFF));
    mbc.on_write(0xBFFF, 0x77);
    mbc.on_write(0x1000, 0x0A);
    assert_eq!(mbc.on_read(0xBFFF), MemRead::Replace(0x00));
    mbc.on_write(0xBFFF, 0x99);
    assert_eq!(mbc.on_read(0xBFFF), MemRead::Replace(0x99));
    mbc.on_write(0x0000, 0xFA);
    assert_eq!(mbc.on_read(0xBFFF), MemRead::Replace(0xFF));
    mbc.on_write(0x0000, 0x0A);
    mbc.on_write(0x0000, 0x0B);
    assert_eq!(mbc.on_read(0xBFFF), MemRead::Replace(0xFF));
    // writes while disabled are dropped
    assert_eq!(mbc.on_write(0xBFFF, 0x11), MemWrite::Block);
    mbc.on_write(0x1FFF, 0x0A);
    assert_eq!(mbc.on_read(0xBFFF), MemRead::Replace(0x99));
}

#[test]
fn mbc3_and_mbc5_ram_enable_use_low_nibble() {
    for code in [0x13u8, 0x1b] {
        let mut mbc = new(code, banked_rom(4));
        mbc.on_write(0x1000, 0x1A);
        mbc.on_write(0xA000, 0x42);
        assert_eq!(mbc.on_read(0xA000), MemRead::Replace(0x42));
        mbc.on_write(0x0000, 0x0B);
        assert_eq!(mbc.on_read(0xA000), MemRead::Replace(0xFF));
    }
}

#[test]
fn mbc1_reads_past_rom_end_give_ff() {
    let mut mbc = new(0x01, banked_rom(2));
    mbc.on_write(0x2000, 0x05);
    assert_eq!(mbc.on_read(0x4000), MemRead::Replace(0xFF));
    assert_eq!(mbc.on_read(0x1000), MemRead::Replace(0));
}

#[test]
fn mbc1_passes_through_outside_its_windows() {
    let mut mbc = new(0x01, banked_rom(4));
    for addr in [0x8000u16, 0x9FFF, 0xC000, 0xFE00, 0xFFFF] {
        assert_eq!(mbc.on_read(addr), MemRead::PassThrough);
        assert_eq!(mbc.on_write(addr, 0x0A), MemWrite::Block);
    }
    assert_eq!(mbc.on_read(0xA000), MemRead::Replace(0xFF));
}

#[test]
fn ram_writes_touch_one_byte() {
    for code in [0x01u8, 0x13, 0x1b] {
        let mut mbc = new(code, banked_rom(4));
        mbc.on_write(0x0000, 0x0A);
        mbc.on_write(0xA000, 0x01);
        mbc.on_write(0xA001, 0x02);
        mbc.on_write(0xB000, 0x03);
        assert_eq!(mbc.on_read(0xA000), MemRead::Replace(0x01));
        assert_eq!(mbc.on_read(0xA001), MemRead::Replace(0x02));
        assert_eq!(mbc.on_read(0xB000), MemRead::Replace(0x03));
        assert_eq!(mbc.on_read(0xA002), MemRead::Replace(0x00));
        assert_eq!(mbc.on_read(0x4000), MemRead::Replace(1));
    }
}

#[test]
fn mbc3_bank_register_is_seven_bits_and_never_zero() {
    let mut mbc = new(0x11, banked_rom(8));
    assert_eq!(mbc.on_read(0x4000), MemRead::Replace(1));
    mbc.on_write(0x2000, 0x00);
    assert_eq!(mbc.on_read(0x4000), MemRead::Replace(1));
    mbc.on_write(0x3000, 0x86);
    assert_eq!(mbc.on_read(0x7FFF), MemRead::Replace(6));
    mbc.on_write(0x2000, 0x80);
    assert_eq!(mbc.on_read(0x4000), MemRead::Replace(1));
    mbc.on_write(0x2000, 0x7F);
    assert_eq!(mbc.on_read(0x4000), MemRead::Replace(0xFF));
}

#[test]
fn mbc3_ram_banks_and_clock_registers() {
    let mut mbc = new(0x10, banked_rom(4));
    assert_eq!(mbc.on_read(0xA000), MemRead::Replace(0xFF));
    mbc.on_write(0x0000, 0x0A);
    mbc.on_write(0x4000, 0x03);
    mbc.on_write(0xA100, 0x33);
    assert_eq!(mbc.on_read(0xA100), MemRead::Replace(0x33));
    mbc.on_write(0x4000, 0x00);
    assert_eq!(mbc.on_read(0xA100), MemRead::Replace(0x00));
    // a clock register is selected: reads give 0, writes are dropped
    mbc.on_write(0x4000, 0x08);
    assert_eq!(mbc.on_read(0xA100), MemRead::Replace(0x00));
    mbc.on_write(0xA100, 0x44);
    mbc.on_write(0x6000, 0x01);
    mbc.on_write(0x4000, 0x03);
    assert_eq!(mbc.on_read(0xA100), MemRead::Replace(0x33));
    mbc.on_write(0x0000, 0x00);
    assert_eq!(mbc.on_read(0xA100), MemRead::Replace(0xFF));
}

#[test]
fn mbc5_can_map_bank_zero() {
    let mut mbc = new(0x19, banked_rom(4));
    assert_eq!(mbc.on_read(0x4000), MemRead::Replace(1));
    mbc.on_write(0x2000, 0x00);
    assert_eq!(mbc.on_read(0x4000), MemRead::Replace(0));
    mbc.on_write(0x2FFF, 0x03);
    assert_eq!(mbc.on_read(0x6000), MemRead::Replace(3));
}

#[test]
fn mbc5_nine_bit_bank() {
    let mut mbc = new(0x1a, banked_rom(0x106));
    mbc.on_write(0x2000, 0x05);
    mbc.on_write(0x3000, 0x01);
    // 0x105 as a byte is 0x05
    assert_eq!(mbc.on_read(0x4000), MemRead::Replace(0x05));
    mbc.on_write(0x2000, 0x00);
    assert_eq!(mbc.on_read(0x4000), MemRead::Replace(0x00));
    // 0x100 in a ROM of 0x106 banks holds the byte 0x00; 0x0FF holds 0xFF
    mbc.on_write(0x3000, 0x02);
    mbc.on_write(0x2000, 0xFF);
    assert_eq!(mbc.on_read(0x4000), MemRead::Replace(0xFF));
    mbc.on_write(0x3FFF, 0x03);
    mbc.on_write(0x2000, 0x06);
    // bank 0x106 lies past the end of the ROM
    assert_eq!(mbc.on_read(0x4000), MemRead::Replace(0xFF));
    mbc.on_write(0x2000, 0x04);
    assert_eq!(mbc.on_read(0x4000), MemRead::Replace(0x04));
}

#[test]
fn mbc5_sixteen_ram_banks() {
    let mut mbc = new(0x1e, banked_rom(2));
    mbc.on_write(0x0000, 0x0A);
    mbc.on_write(0x4000, 0x0F);
    mbc.on_write(0xBFFF, 0x5A);
    assert_eq!(mbc.on_read(0xBFFF), MemRead::Replace(0x5A));
    // only four bits select the bank
    mbc.on_write(0x4000, 0x1F);
    assert_eq!(mbc.on_read(0xBFFF), MemRead::Replace(0x5A));
    mbc.on_write(0x4000, 0x00);
    assert_eq!(mbc.on_read(0xBFFF), MemRead::Replace(0x00));
    mbc.on_write(0x0000, 0x00);
    assert_eq!(mbc.on_read(0xBFFF), MemRead::Replace(0xFF));
}

#[test]
fn writes_never_change_rom() {
    for code in [0x00u8, 0x01, 0x0f, 0x19] {
        let mut mbc = new(code, patterned_rom());
        for addr in [0x0000u16, 0x0100, 0x3FFF] {
            mbc.on_write(addr, 0xAA);
            assert_eq!(mbc.on_read(addr), MemRead::Replace((addr as usize % 251) as u8));
        }
    }
}
