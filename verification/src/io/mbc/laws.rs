//! What holds of every bank controller across reads and writes.

use vstd::prelude::*;

use super::mbc::{initial_state, is_mbc1_code, is_mbc3_code, is_mbc5_code, is_supported_code};
use super::model::{byte_at, MbcState};
use crate::mmu::MemRead;

verus! {

/// A freshly chosen controller keeps its register invariant.
pub proof fn lemma_initial_wf(code: u8, rom: Seq<u8>)
    requires
        is_supported_code(code),
    ensures
        initial_state(code, rom).wf(),
        initial_state(code, rom).rom() == rom,
        !initial_state(code, rom).ram_enabled(),
{
}

/// A fresh cartridge with a bank controller shows bank 1 in the switchable
/// window.
pub proof fn lemma_initial_bank_one(code: u8, rom: Seq<u8>, addr: u16)
    requires
        is_supported_code(code),
        code != 0x00,
        0x4000 <= addr <= 0x7FFF,
    ensures
        initial_state(code, rom).read(addr) == MemRead::Replace(byte_at(rom, addr as int)),
{
}

/// Every write keeps the register invariant: RAM keeps its size and the
/// bank registers stay in their ranges.
pub proof fn lemma_write_keeps_wf(s: MbcState, addr: u16, value: u8)
    requires
        s.wf(),
    ensures
        s.write(addr, value).wf(),
{
    match s {
        MbcState::Mbc5(m) => {
            assert(m.rom_bank / 0x100 <= 1);
        },
        _ => {},
    }
}

/// Writes never change the ROM.
pub proof fn lemma_write_keeps_rom(s: MbcState, addr: u16, value: u8)
    ensures
        s.write(addr, value).rom() == s.rom(),
{
}

/// Writes do not change whether a read of any address stays within the ROM.
pub proof fn lemma_write_keeps_readable(s: MbcState, addr: u16, value: u8, other: u16)
    ensures
        s.write(addr, value).readable(other) == s.readable(other),
{
}

/// A read of RAM gives back what the last write to the same address wrote,
/// while the RAM is mapped.
pub proof fn lemma_ram_read_back(s: MbcState, addr: u16, value: u8)
    requires
        s.wf(),
        0xA000 <= addr <= 0xBFFF,
        s.ram_mapped(),
    ensures
        s.write(addr, value).read(addr) == MemRead::Replace(value),
        s.write(addr, value).ram_mapped(),
{
}

/// A write to RAM leaves every read of any other address as it was.
pub proof fn lemma_ram_write_is_local(s: MbcState, addr: u16, value: u8, other: u16)
    requires
        0xA000 <= addr <= 0xBFFF,
        other != addr,
    ensures
        s.write(addr, value).read(other) == s.read(other),
{
}

/// While RAM is disabled, its window reads 0xFF and ignores writes.
pub proof fn lemma_ram_disabled(s: MbcState, addr: u16, value: u8)
    requires
        !(s is RomOnly),
        !s.ram_enabled(),
        0xA000 <= addr <= 0xBFFF,
    ensures
        s.read(addr) == MemRead::Replace(0xFF),
        s.write(addr, value) == s,
{
}

/// MBC3: while RAM is enabled but a clock register is selected, the RAM
/// window reads 0 and ignores writes.
pub proof fn lemma_mbc3_clock_registers(s: MbcState, addr: u16, value: u8)
    requires
        s is Mbc3,
        s.ram_enabled(),
        !s.ram_mapped(),
        0xA000 <= addr <= 0xBFFF,
    ensures
        s.read(addr) == MemRead::Replace(0x00),
        s.write(addr, value) == s,
{
}

/// A write to 0x0000-0x1FFF enables RAM exactly when the value is 0x0A on
/// MBC1, and when its low four bits are 0xA on MBC3 and MBC5; it changes
/// nothing else a read can see outside RAM.
pub proof fn lemma_ram_enable_register(s: MbcState, addr: u16, value: u8)
    requires
        !(s is RomOnly),
        addr <= 0x1FFF,
    ensures
        s is Mbc1 ==> s.write(addr, value).ram_enabled() == (value == 0x0A),
        !(s is Mbc1) ==> s.write(addr, value).ram_enabled() == (value % 0x10 == 0x0A),
        s.write(addr, value).rom() == s.rom(),
        forall|other: u16|
            other <= 0x7FFF ==> #[trigger] s.write(addr, value).read(other) == s.read(other),
{
}

/// 0x0000-0x3FFF always shows the start of the ROM, whatever the registers
/// hold.
pub proof fn lemma_first_bank_fixed(s: MbcState, addr: u16)
    requires
        addr <= 0x3FFF,
        s.readable(addr),
    ensures
        s.read(addr) == MemRead::Replace(byte_at(s.rom(), addr as int)),
{
}

/// Outside ROM space and the RAM window, a controller passes reads through
/// and ignores writes.
pub proof fn lemma_outside_passes_through(s: MbcState, addr: u16, value: u8)
    requires
        0x8000 <= addr <= 0x9FFF || 0xC000 <= addr,
    ensures
        s.read(addr) == MemRead::PassThrough,
        s.write(addr, value) == s,
{
}

/// A cartridge without a controller shows its whole first 32KB and never
/// changes.
pub proof fn lemma_rom_only(s: MbcState, addr: u16, value: u8)
    requires
        s is RomOnly,
        s.readable(addr),
    ensures
        addr <= 0x7FFF ==> s.read(addr) == MemRead::Replace(byte_at(s.rom(), addr as int)),
        0x7FFF < addr ==> s.read(addr) == MemRead::PassThrough,
        s.write(addr, value) == s,
{
}

/// MBC1 and MBC3 never show bank 0 in the switchable window: MBC3 maps a
/// written 0 to bank 1, and MBC1 maps banks 0x00, 0x20, 0x40 and 0x60 to the
/// next bank.
pub proof fn lemma_switchable_bank_not_zero(s: MbcState)
    requires
        s.wf(),
    ensures
        s matches MbcState::Mbc1(m) ==> 1 <= m.rom_bank() <= 0x7F && m.rom_bank() != 0x20
            && m.rom_bank() != 0x40 && m.rom_bank() != 0x60,
        s matches MbcState::Mbc3(m) ==> 1 <= m.rom_bank <= 0x7F,
{
}

/// MBC1: in ROM banking mode the upper register supplies bits 5-6 of the
/// ROM bank and RAM bank 0 is shown; in RAM banking mode it selects the RAM
/// bank and the ROM bank is the low register alone.
pub proof fn lemma_mbc1_banking_modes(s: MbcState)
    requires
        s.wf(),
        s is Mbc1,
    ensures
        s matches MbcState::Mbc1(m) ==> (if m.ram_mode {
            m.rom_bank() == m.rom_bank_lo && m.ram_bank() == m.bank_hi
        } else {
            m.rom_bank() == m.bank_hi * 0x20 + m.rom_bank_lo && m.ram_bank() == 0
        }),
{
}

/// MBC5 can show bank 0 in the switchable window: after 0 is written to
/// both ROM bank registers, 0x4000-0x7FFF reads the start of the ROM.
pub proof fn lemma_mbc5_bank_zero(s: MbcState, addr: u16)
    requires
        s.wf(),
        s is Mbc5,
        0x4000 <= addr <= 0x7FFF,
    ensures
        s.write(0x2000, 0).write(0x3000, 0).read(addr) == MemRead::Replace(
            byte_at(s.rom(), addr - 0x4000),
        ),
{
    match s {
        MbcState::Mbc5(m) => {
            assert(m.rom_bank / 0x100 <= 1);
        },
        _ => {},
    }
}

/// MBC5: the ROM bank is nine bits, written as a low byte at 0x2000-0x2FFF
/// and a high bit at 0x3000-0x3FFF; the two writes in either order select
/// bank `hi * 0x100 + lo`.
pub proof fn lemma_mbc5_nine_bit_bank(s: MbcState, lo: u8, hi: u8, addr: u16)
    requires
        s.wf(),
        s is Mbc5,
        0x4000 <= addr <= 0x7FFF,
    ensures
        s.write(0x2000, lo).write(0x3000, hi).read(addr) == MemRead::Replace(
            byte_at(s.rom(), (hi % 2 * 0x100 + lo) * 0x4000 + (addr - 0x4000)),
        ),
        s.write(0x3000, hi).write(0x2000, lo).read(addr) == MemRead::Replace(
            byte_at(s.rom(), (hi % 2 * 0x100 + lo) * 0x4000 + (addr - 0x4000)),
        ),
{
    match s {
        MbcState::Mbc5(m) => {
            assert(m.rom_bank / 0x100 <= 1);
        },
        _ => {},
    }
}

/// The cartridge type code picks the controller: 0x00 none, 0x01-0x03
/// MBC1, 0x0F-0x13 MBC3, 0x19-0x1E MBC5.
pub proof fn lemma_code_picks_controller(code: u8, rom: Seq<u8>)
    requires
        is_supported_code(code),
    ensures
        code == 0x00 <==> initial_state(code, rom) is RomOnly,
        is_mbc1_code(code) <==> initial_state(code, rom) is Mbc1,
        is_mbc3_code(code) <==> initial_state(code, rom) is Mbc3,
        is_mbc5_code(code) <==> initial_state(code, rom) is Mbc5,
{
}

} // verus!
