//! The register and window behaviour of each bank controller, stated over
//! its fields with the constants of the hardware, and how RAM banks keep
//! apart.

use vstd::prelude::*;

use super::mbc::{initial_state, is_supported_code};
use super::mbc1::Mbc1State;
use super::mbc3::Mbc3State;
use super::mbc5::Mbc5State;
use super::model::MbcState;
use crate::mmu::MemRead;

verus! {

// ------------------------------------------------- every controller kind

/// The cartridge type codes: 0x00 is a cartridge without a controller,
/// 0x01-0x03 MBC1, 0x0F-0x13 MBC3 and 0x19-0x1E MBC5; no other code has a
/// controller.
pub proof fn lemma_type_codes(code: u8, rom: Seq<u8>)
    ensures
        is_supported_code(code) <==> (code == 0x00 || code == 0x01 || code == 0x02 || code == 0x03
            || code == 0x0f || code == 0x10 || code == 0x11 || code == 0x12 || code == 0x13 || code
            == 0x19 || code == 0x1a || code == 0x1b || code == 0x1c || code == 0x1d || code == 0x1e),
        code == 0x00 ==> initial_state(code, rom) is RomOnly,
        (code == 0x01 || code == 0x02 || code == 0x03) ==> initial_state(code, rom) is Mbc1,
        (code == 0x0f || code == 0x10 || code == 0x11 || code == 0x12 || code == 0x13)
            ==> initial_state(code, rom) is Mbc3,
        (code == 0x19 || code == 0x1a || code == 0x1b || code == 0x1c || code == 0x1d || code
            == 0x1e) ==> initial_state(code, rom) is Mbc5,
{
}

/// A fresh controller holds the ROM it was given, RAM of its full size
/// (32KB on MBC1 and MBC3, 128KB on MBC5) filled with zeros and disabled,
/// ROM bank 1 selected, RAM bank 0 selected, and MBC1 in ROM banking mode.
pub proof fn lemma_initial_registers(code: u8, rom: Seq<u8>)
    requires
        is_supported_code(code),
    ensures
        match initial_state(code, rom) {
            MbcState::RomOnly(m) => m.rom == rom,
            MbcState::Mbc1(m) => {
                &&& m.rom == rom
                &&& m.ram.len() == 0x8000
                &&& forall|i: int| 0 <= i < 0x8000 ==> m.ram[i] == 0
                &&& m.rom_bank_lo == 1 && m.bank_hi == 0
                &&& !m.ram_enabled && !m.ram_mode
            },
            MbcState::Mbc3(m) => {
                &&& m.rom == rom
                &&& m.ram.len() == 0x8000
                &&& forall|i: int| 0 <= i < 0x8000 ==> m.ram[i] == 0
                &&& m.rom_bank == 1 && m.ram_bank == 0
                &&& !m.ram_enabled
            },
            MbcState::Mbc5(m) => {
                &&& m.rom == rom
                &&& m.ram.len() == 0x20000
                &&& forall|i: int| 0 <= i < 0x20000 ==> m.ram[i] == 0
                &&& m.rom_bank == 1 && m.ram_bank == 0
                &&& !m.ram_enabled
            },
        },
{
}

/// The display names: "ROM Only", "MBC1", "MBC3", "MBC5".
pub proof fn lemma_names(s: MbcState)
    ensures
        s is RomOnly ==> s.name() == "ROM Only"@,
        s is Mbc1 ==> s.name() == "MBC1"@,
        s is Mbc3 ==> s.name() == "MBC3"@,
        s is Mbc5 ==> s.name() == "MBC5"@,
{
}

/// 0x0000-0x3FFF reads ROM byte `addr` (0xFF past the end of the ROM) on
/// every controller, whatever its registers; a cartridge without a
/// controller reads ROM byte `addr` up to 0x7FFF and passes the rest
/// through.
pub proof fn lemma_fixed_rom_reads(s: MbcState, addr: u16)
    ensures
        match s {
            MbcState::RomOnly(m) => {
                &&& addr <= 0x7FFF ==> s.read(addr) == MemRead::Replace(m.rom[addr as int])
                &&& 0x7FFF < addr ==> s.read(addr) == MemRead::PassThrough
            },
            MbcState::Mbc1(m) => addr <= 0x3FFF ==> s.read(addr) == MemRead::Replace(
                if (addr as int) < m.rom.len() {
                    m.rom[addr as int]
                } else {
                    0xFF
                },
            ),
            MbcState::Mbc3(m) => addr <= 0x3FFF ==> s.read(addr) == MemRead::Replace(
                if (addr as int) < m.rom.len() {
                    m.rom[addr as int]
                } else {
                    0xFF
                },
            ),
            MbcState::Mbc5(m) => addr <= 0x3FFF ==> s.read(addr) == MemRead::Replace(
                if (addr as int) < m.rom.len() {
                    m.rom[addr as int]
                } else {
                    0xFF
                },
            ),
        },
{
}

// ---------------------------------------------------------------- MBC1

/// MBC1, the switchable ROM window: in ROM banking mode it shows bank
/// `bank_hi * 0x20 + rom_bank_lo`, in RAM banking mode bank `rom_bank_lo`;
/// past the end of the ROM it reads 0xFF.
pub proof fn lemma_mbc1_rom_window(m: Mbc1State, addr: u16)
    requires
        1 <= m.rom_bank_lo <= 0x1F,
        m.bank_hi <= 0x03,
        0x4000 <= addr <= 0x7FFF,
    ensures
        ({
            let bank: int = if m.ram_mode {
                m.rom_bank_lo as int
            } else {
                m.bank_hi * 0x20 + m.rom_bank_lo
            };
            let offset: int = bank * 0x4000 + (addr - 0x4000);
            MbcState::Mbc1(m).read(addr) == MemRead::Replace(
                if offset < m.rom.len() {
                    m.rom[offset]
                } else {
                    0xFF
                },
            )
        }),
{
}

/// MBC1 register writes: 0x0000-0x1FFF enables RAM on 0x0A alone;
/// 0x2000-0x3FFF sets the low ROM bank register to the value's low five
/// bits, 0 read as 1; 0x4000-0x5FFF sets the upper register to its low two
/// bits; 0x6000-0x7FFF sets RAM banking mode from its lowest bit. Nothing
/// else changes.
pub proof fn lemma_mbc1_registers(m: Mbc1State, addr: u16, value: u8)
    ensures
        (addr <= 0x1FFF ==> MbcState::Mbc1(m).write(addr, value) == MbcState::Mbc1(
            Mbc1State { ram_enabled: value == 0x0A, ..m },
        )),
        (0x2000 <= addr <= 0x3FFF ==> MbcState::Mbc1(m).write(addr, value) == MbcState::Mbc1(
            Mbc1State {
                rom_bank_lo: if value % 0x20 == 0 {
                    1
                } else {
                    value % 0x20
                },
                ..m
            },
        )),
        (0x4000 <= addr <= 0x5FFF ==> MbcState::Mbc1(m).write(addr, value) == MbcState::Mbc1(
            Mbc1State { bank_hi: value % 0x04, ..m },
        )),
        (0x6000 <= addr <= 0x7FFF ==> MbcState::Mbc1(m).write(addr, value) == MbcState::Mbc1(
            Mbc1State { ram_mode: value % 0x02 == 1, ..m },
        )),
{
}

/// MBC1: after `value` is written to the low ROM bank register in ROM
/// banking mode, the switchable window shows bank
/// `bank_hi * 0x20 + value % 0x20`, bank 0 of the five bits read as 1.
pub proof fn lemma_mbc1_select_rom_bank(m: Mbc1State, reg: u16, value: u8, addr: u16)
    requires
        1 <= m.rom_bank_lo <= 0x1F,
        m.bank_hi <= 0x03,
        !m.ram_mode,
        0x2000 <= reg <= 0x3FFF,
        0x4000 <= addr <= 0x7FFF,
    ensures
        ({
            let low: int = if value % 0x20 == 0 {
                1
            } else {
                (value % 0x20) as int
            };
            let offset: int = (m.bank_hi * 0x20 + low) * 0x4000 + (addr - 0x4000);
            MbcState::Mbc1(m).write(reg, value).read(addr) == MemRead::Replace(
                if offset < m.rom.len() {
                    m.rom[offset]
                } else {
                    0xFF
                },
            )
        }),
{
}

/// MBC1, the RAM window while RAM is enabled: it reaches byte
/// `bank * 0x2000 + (addr - 0xA000)` of the 32KB RAM, where the bank is the
/// upper register in RAM banking mode and 0 in ROM banking mode; a read
/// gives that byte and a write replaces it alone.
pub proof fn lemma_mbc1_ram_window(m: Mbc1State, addr: u16, value: u8)
    requires
        m.bank_hi <= 0x03,
        m.ram.len() == 0x8000,
        m.ram_enabled,
        0xA000 <= addr <= 0xBFFF,
    ensures
        ({
            let bank: int = if m.ram_mode {
                m.bank_hi as int
            } else {
                0
            };
            let offset: int = bank * 0x2000 + (addr - 0xA000);
            &&& MbcState::Mbc1(m).read(addr) == MemRead::Replace(m.ram[offset])
            &&& MbcState::Mbc1(m).write(addr, value) == MbcState::Mbc1(
                Mbc1State { ram: m.ram.update(offset, value), ..m },
            )
        }),
{
}

/// MBC1 in RAM banking mode: a RAM write made under one RAM bank leaves
/// every RAM read under another RAM bank as it was.
pub proof fn lemma_mbc1_ram_banks_separate(
    m: Mbc1State,
    bank1: u8,
    bank2: u8,
    addr1: u16,
    addr2: u16,
    value: u8,
)
    requires
        1 <= m.rom_bank_lo <= 0x1F,
        m.bank_hi <= 0x03,
        m.ram.len() == 0x8000,
        m.ram_mode,
        m.ram_enabled,
        bank1 % 0x04 != bank2 % 0x04,
        0xA000 <= addr1 <= 0xBFFF,
        0xA000 <= addr2 <= 0xBFFF,
    ensures
        MbcState::Mbc1(m).write(0x4000, bank1).write(addr1, value).write(0x4000, bank2).read(addr2)
            == MbcState::Mbc1(m).write(0x4000, bank2).read(addr2),
{
}

// ---------------------------------------------------------------- MBC3

/// MBC3, the switchable ROM window shows bank `rom_bank`; past the end of
/// the ROM it reads 0xFF.
pub proof fn lemma_mbc3_rom_window(m: Mbc3State, addr: u16)
    requires
        0x4000 <= addr <= 0x7FFF,
    ensures
        ({
            let offset: int = m.rom_bank * 0x4000 + (addr - 0x4000);
            MbcState::Mbc3(m).read(addr) == MemRead::Replace(
                if offset < m.rom.len() {
                    m.rom[offset]
                } else {
                    0xFF
                },
            )
        }),
{
}

/// MBC3 register writes: 0x0000-0x1FFF enables RAM when the value's low
/// four bits are 0xA; 0x2000-0x3FFF sets the ROM bank to the value's low
/// seven bits, 0 read as 1; 0x4000-0x5FFF selects RAM bank or clock
/// register by the whole value; 0x6000-0x7FFF changes nothing.
pub proof fn lemma_mbc3_registers(m: Mbc3State, addr: u16, value: u8)
    ensures
        (addr <= 0x1FFF ==> MbcState::Mbc3(m).write(addr, value) == MbcState::Mbc3(
            Mbc3State { ram_enabled: value % 0x10 == 0x0A, ..m },
        )),
        (0x2000 <= addr <= 0x3FFF ==> MbcState::Mbc3(m).write(addr, value) == MbcState::Mbc3(
            Mbc3State {
                rom_bank: if value % 0x80 == 0 {
                    1
                } else {
                    value % 0x80
                },
                ..m
            },
        )),
        (0x4000 <= addr <= 0x5FFF ==> MbcState::Mbc3(m).write(addr, value) == MbcState::Mbc3(
            Mbc3State { ram_bank: value, ..m },
        )),
        (0x6000 <= addr <= 0x7FFF ==> MbcState::Mbc3(m).write(addr, value) == MbcState::Mbc3(m)),
{
}

/// MBC3: after `value` is written to the ROM bank register, the switchable
/// window shows bank `value % 0x80`, bank 0 read as 1.
pub proof fn lemma_mbc3_select_rom_bank(m: Mbc3State, reg: u16, value: u8, addr: u16)
    requires
        0x2000 <= reg <= 0x3FFF,
        0x4000 <= addr <= 0x7FFF,
    ensures
        ({
            let bank: int = if value % 0x80 == 0 {
                1
            } else {
                (value % 0x80) as int
            };
            let offset: int = bank * 0x4000 + (addr - 0x4000);
            MbcState::Mbc3(m).write(reg, value).read(addr) == MemRead::Replace(
                if offset < m.rom.len() {
                    m.rom[offset]
                } else {
                    0xFF
                },
            )
        }),
{
}

/// MBC3, the RAM window: while RAM is enabled and RAM bank 0-3 is
/// selected it reaches byte `ram_bank * 0x2000 + (addr - 0xA000)` of the
/// 32KB RAM, read and written alone; with a clock register selected it reads
/// 0 and ignores writes; disabled, it reads 0xFF and ignores writes.
pub proof fn lemma_mbc3_ram_window(m: Mbc3State, addr: u16, value: u8)
    requires
        m.ram.len() == 0x8000,
        0xA000 <= addr <= 0xBFFF,
    ensures
        ({
            let offset: int = m.ram_bank * 0x2000 + (addr - 0xA000);
            &&& (m.ram_enabled && m.ram_bank <= 3) ==> MbcState::Mbc3(m).read(addr)
                == MemRead::Replace(m.ram[offset])
            &&& (m.ram_enabled && m.ram_bank <= 3) ==> MbcState::Mbc3(m).write(addr, value)
                == MbcState::Mbc3(Mbc3State { ram: m.ram.update(offset, value), ..m })
            &&& (m.ram_enabled && m.ram_bank > 3) ==> MbcState::Mbc3(m).read(addr)
                == MemRead::Replace(0x00)
            &&& !m.ram_enabled ==> MbcState::Mbc3(m).read(addr) == MemRead::Replace(0xFF)
            &&& !(m.ram_enabled && m.ram_bank <= 3) ==> MbcState::Mbc3(m).write(addr, value)
                == MbcState::Mbc3(m)
        }),
{
}

/// MBC3: a RAM write made under one RAM bank leaves every RAM read under
/// another RAM bank as it was.
pub proof fn lemma_mbc3_ram_banks_separate(
    m: Mbc3State,
    bank1: u8,
    bank2: u8,
    addr1: u16,
    addr2: u16,
    value: u8,
)
    requires
        m.ram.len() == 0x8000,
        m.ram_enabled,
        bank1 <= 3,
        bank2 <= 3,
        bank1 != bank2,
        0xA000 <= addr1 <= 0xBFFF,
        0xA000 <= addr2 <= 0xBFFF,
    ensures
        MbcState::Mbc3(m).write(0x4000, bank1).write(addr1, value).write(0x4000, bank2).read(addr2)
            == MbcState::Mbc3(m).write(0x4000, bank2).read(addr2),
{
}

// ---------------------------------------------------------------- MBC5

/// MBC5, the switchable ROM window shows bank `rom_bank`, bank 0 included;
/// past the end of the ROM it reads 0xFF.
pub proof fn lemma_mbc5_rom_window(m: Mbc5State, addr: u16)
    requires
        0x4000 <= addr <= 0x7FFF,
    ensures
        ({
            let offset: int = m.rom_bank * 0x4000 + (addr - 0x4000);
            MbcState::Mbc5(m).read(addr) == MemRead::Replace(
                if offset < m.rom.len() {
                    m.rom[offset]
                } else {
                    0xFF
                },
            )
        }),
{
}

/// MBC5 register writes: 0x0000-0x1FFF enables RAM when the value's low
/// four bits are 0xA; 0x2000-0x2FFF makes the value the low eight bits of
/// the 9-bit ROM bank and keeps bit 8; 0x3000-0x3FFF makes the value's
/// lowest bit bit 8 and keeps the low eight; 0x4000-0x5FFF selects RAM bank
/// `value % 0x10`. Nothing else changes.
pub proof fn lemma_mbc5_registers(m: Mbc5State, addr: u16, value: u8)
    requires
        m.rom_bank <= 0x1FF,
    ensures
        (addr <= 0x1FFF ==> MbcState::Mbc5(m).write(addr, value) == MbcState::Mbc5(
            Mbc5State { ram_enabled: value % 0x10 == 0x0A, ..m },
        )),
        (0x2000 <= addr <= 0x2FFF ==> (MbcState::Mbc5(m).write(addr, value) matches MbcState::Mbc5(
            n,
        ) && n.rom_bank % 0x100 == value && n.rom_bank / 0x100 == m.rom_bank / 0x100 && n.rom_bank
            <= 0x1FF && n.rom == m.rom && n.ram == m.ram && n.ram_bank == m.ram_bank && n.ram_enabled
            == m.ram_enabled)),
        (0x3000 <= addr <= 0x3FFF ==> (MbcState::Mbc5(m).write(addr, value) matches MbcState::Mbc5(
            n,
        ) && n.rom_bank % 0x100 == m.rom_bank % 0x100 && n.rom_bank / 0x100 == value % 0x02
            && n.rom == m.rom && n.ram == m.ram && n.ram_bank == m.ram_bank && n.ram_enabled
            == m.ram_enabled)),
        (0x4000 <= addr <= 0x5FFF ==> MbcState::Mbc5(m).write(addr, value) == MbcState::Mbc5(
            Mbc5State { ram_bank: value % 0x10, ..m },
        )),
        (0x6000 <= addr <= 0x7FFF ==> MbcState::Mbc5(m).write(addr, value) == MbcState::Mbc5(m)),
{
}

/// MBC5, the RAM window while RAM is enabled: it reaches byte
/// `ram_bank * 0x2000 + (addr - 0xA000)` of the 128KB RAM, read and written
/// alone.
pub proof fn lemma_mbc5_ram_window(m: Mbc5State, addr: u16, value: u8)
    requires
        m.ram.len() == 0x20000,
        m.ram_bank <= 0x0F,
        m.ram_enabled,
        0xA000 <= addr <= 0xBFFF,
    ensures
        ({
            let offset: int = m.ram_bank * 0x2000 + (addr - 0xA000);
            &&& MbcState::Mbc5(m).read(addr) == MemRead::Replace(m.ram[offset])
            &&& MbcState::Mbc5(m).write(addr, value) == MbcState::Mbc5(
                Mbc5State { ram: m.ram.update(offset, value), ..m },
            )
        }),
{
}

/// MBC5: a RAM write made under one RAM bank leaves every RAM read under
/// another RAM bank as it was.
pub proof fn lemma_mbc5_ram_banks_separate(
    m: Mbc5State,
    bank1: u8,
    bank2: u8,
    addr1: u16,
    addr2: u16,
    value: u8,
)
    requires
        m.ram.len() == 0x20000,
        m.ram_enabled,
        bank1 % 0x10 != bank2 % 0x10,
        0xA000 <= addr1 <= 0xBFFF,
        0xA000 <= addr2 <= 0xBFFF,
    ensures
        MbcState::Mbc5(m).write(0x4000, bank1).write(addr1, value).write(0x4000, bank2).read(addr2)
            == MbcState::Mbc5(m).write(0x4000, bank2).read(addr2),
{
}

} // verus!
