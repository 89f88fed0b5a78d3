//! MBC1.
//!
//! Supports up to 2MB ROM (128 banks of 16KB) and 32KB RAM (4 banks of 8KB).
//!
//! Memory map:
//!   0x0000-0x3FFF ROM bank 0 (fixed)
//!   0x4000-0x7FFF Switchable ROM bank
//!   0xA000-0xBFFF Switchable RAM bank (if enabled)
//!
//! Write registers:
//!   0x0000-0x1FFF RAM enable (0x0A = enable, anything else = disable)
//!   0x2000-0x3FFF ROM bank low 5 bits (0 treated as 1)
//!   0x4000-0x5FFF Upper 2 bits — RAM bank OR upper ROM bank bits
//!   0x6000-0x7FFF Banking mode (0 = ROM mode, 1 = RAM mode)

use vstd::prelude::*;

use super::model::{byte_at, store, MbcState};
use super::Mbc;
use crate::mmu::{MemRead, MemWrite};

verus! {

/// The size of the RAM an MBC1 cartridge is given (32KB, the most it can map).
pub const MBC1_RAM_SIZE: usize = 0x8000;

/// The registers and memories of an MBC1 cartridge.
pub struct Mbc1State {
    pub rom: Seq<u8>,
    pub ram: Seq<u8>,
    /// Lower 5 bits of the ROM bank.
    pub rom_bank_lo: u8,
    /// Upper 2 bits: RAM bank, or upper ROM bank bits.
    pub bank_hi: u8,
    pub ram_enabled: bool,
    /// false = ROM banking mode, true = RAM banking mode.
    pub ram_mode: bool,
}

impl Mbc1State {
    /// The state a freshly inserted cartridge with this ROM starts in.
    pub open spec fn initial(rom: Seq<u8>) -> Mbc1State {
        Mbc1State {
            rom,
            ram: Seq::new(MBC1_RAM_SIZE as nat, |i: int| 0u8),
            rom_bank_lo: 1,
            bank_hi: 0,
            ram_enabled: false,
            ram_mode: false,
        }
    }

    /// RAM has its full size; the low ROM bank register holds a nonzero
    /// 5-bit value and the upper register a 2-bit value.
    pub open spec fn wf(self) -> bool {
        &&& self.ram.len() == MBC1_RAM_SIZE
        &&& 1 <= self.rom_bank_lo <= 0x1F
        &&& self.bank_hi <= 0x03
    }

    /// Effective ROM bank for the 0x4000-0x7FFF window: in ROM mode the upper
    /// bits join the lower five; banks 0x00, 0x20, 0x40 and 0x60 are
    /// remapped to the next bank.
    pub open spec fn rom_bank(self) -> int {
        let bank: int = if self.ram_mode {
            self.rom_bank_lo as int
        } else {
            self.bank_hi * 0x20 + self.rom_bank_lo
        };
        if bank == 0x00 || bank == 0x20 || bank == 0x40 || bank == 0x60 {
            bank + 1
        } else {
            bank
        }
    }

    /// Effective RAM bank: the upper register in RAM mode, else bank 0.
    pub open spec fn ram_bank(self) -> int {
        if self.ram_mode {
            self.bank_hi as int
        } else {
            0
        }
    }

    /// Offset into RAM that an address of the RAM window reaches.
    pub open spec fn ram_offset(self, addr: u16) -> int {
        self.ram_bank() * 0x2000 + (addr - 0xA000)
    }

    pub open spec fn read(self, addr: u16) -> MemRead {
        if addr <= 0x3FFF {
            MemRead::Replace(byte_at(self.rom, addr as int))
        } else if addr <= 0x7FFF {
            MemRead::Replace(byte_at(self.rom, self.rom_bank() * 0x4000 + (addr - 0x4000)))
        } else if 0xA000 <= addr <= 0xBFFF {
            if self.ram_enabled {
                MemRead::Replace(byte_at(self.ram, self.ram_offset(addr)))
            } else {
                MemRead::Replace(0xFF)
            }
        } else {
            MemRead::PassThrough
        }
    }

    pub open spec fn write(self, addr: u16, value: u8) -> Mbc1State {
        if addr <= 0x1FFF {
            Mbc1State { ram_enabled: value == 0x0A, ..self }
        } else if addr <= 0x3FFF {
            let lo = value % 0x20;
            Mbc1State { rom_bank_lo: if lo == 0 { 1 } else { lo }, ..self }
        } else if addr <= 0x5FFF {
            Mbc1State { bank_hi: value % 0x04, ..self }
        } else if addr <= 0x7FFF {
            Mbc1State { ram_mode: value % 0x02 != 0, ..self }
        } else if 0xA000 <= addr <= 0xBFFF && self.ram_enabled {
            Mbc1State { ram: store(self.ram, self.ram_offset(addr), value), ..self }
        } else {
            self
        }
    }
}

pub struct Mbc1 {
    rom: Vec<u8>,
    ram: Vec<u8>,
    rom_bank_lo: u8,  // lower 5 bits of ROM bank
    bank_hi: u8,  // upper 2 bits (RAM bank or upper ROM bank)
    ram_enabled: bool,
    ram_mode: bool,  // false = ROM banking mode, true = RAM banking mode
}

impl View for Mbc1 {
    type V = Mbc1State;

    closed spec fn view(&self) -> Mbc1State {
        Mbc1State {
            rom: self.rom@,
            ram: self.ram@,
            rom_bank_lo: self.rom_bank_lo,
            bank_hi: self.bank_hi,
            ram_enabled: self.ram_enabled,
            ram_mode: self.ram_mode,
        }
    }
}

impl Mbc1 {
    #[verifier::type_invariant]
    spec fn registers_in_range(self) -> bool {
        self@.wf()
    }

    /// An MBC1 controller's state is an MBC1 state.
    pub proof fn lemma_state_kind(m: &Mbc1)
        ensures
            m.state() == MbcState::Mbc1(m@),
    {
    }

    pub(crate) fn new(rom: Vec<u8>) -> (r: Self)
        ensures
            r@ == Mbc1State::initial(rom@),
            r.state() == MbcState::Mbc1(Mbc1State::initial(rom@)),
    {
        let ram = vec![0; MBC1_RAM_SIZE];  // 32KB max
        let r = Self { rom, ram, rom_bank_lo: 1, bank_hi: 0, ram_enabled: false, ram_mode: false };
        assert(r@.ram =~= Mbc1State::initial(rom@).ram);
        r
    }

    /// Effective ROM bank for the 0x4000-0x7FFF window.
    fn rom_bank(&self) -> (bank: usize)
        ensures
            bank == self@.rom_bank(),
            1 <= bank <= 0x7F,
    {
        proof {
            use_type_invariant(self);
        }
        let bank = if self.ram_mode {
            self.rom_bank_lo as usize
        } else {
            let hi = self.bank_hi;
            let lo = self.rom_bank_lo;
            assert(((hi as usize) << 5usize) | (lo as usize) == (hi as usize) * 32 + (lo as usize))
                by (bit_vector)
                requires
                    hi <= 3,
                    lo <= 0x1F,
            ;
            ((self.bank_hi as usize) << 5) | (self.rom_bank_lo as usize)
        };
        // Banks 0x00, 0x20, 0x40, 0x60 are remapped to the next bank
        match bank {
            0x00 | 0x20 | 0x40 | 0x60 => bank + 1,
            b => b,
        }
    }

    /// Effective RAM bank.
    fn ram_bank(&self) -> (bank: usize)
        ensures
            bank == self@.ram_bank(),
            bank <= 3,
    {
        proof {
            use_type_invariant(self);
        }
        if self.ram_mode {
            self.bank_hi as usize
        } else {
            0
        }
    }

    fn rom_read(&self, addr: usize) -> (byte: u8)
        ensures
            byte == byte_at(self@.rom, addr as int),
    {
        if addr < self.rom.len() {
            self.rom[addr]
        } else {
            0xFF
        }
    }

    fn ram_read(&self, addr: usize) -> (byte: u8)
        ensures
            byte == byte_at(self@.ram, addr as int),
    {
        if addr < self.ram.len() {
            self.ram[addr]
        } else {
            0xFF
        }
    }
}

impl Mbc for Mbc1 {
    closed spec fn state(&self) -> MbcState {
        MbcState::Mbc1(self@)
    }

    fn get_name(&self) -> (name: &str) {
        proof {
            use_type_invariant(self);
        }
        "MBC1"
    }

    fn on_read(&self, addr: u16) -> (r: MemRead) {
        proof {
            use_type_invariant(self);
        }
        match addr {
            0x0000..=0x3FFF => MemRead::Replace(self.rom_read(addr as usize)),
            0x4000..=0x7FFF => {
                let offset = self.rom_bank() * 0x4000 + (addr as usize - 0x4000);
                MemRead::Replace(self.rom_read(offset))
            },
            0xA000..=0xBFFF if self.ram_enabled => {
                let offset = self.ram_bank() * 0x2000 + (addr as usize - 0xA000);
                MemRead::Replace(self.ram_read(offset))
            },
            0xA000..=0xBFFF => MemRead::Replace(0xFF),
            _ => MemRead::PassThrough,
        }
    }

    fn on_write(&mut self, addr: u16, value: u8) -> (r: MemWrite) {
        proof {
            use_type_invariant(&*self);
        }
        match addr {
            0x0000..=0x1FFF => {
                self.ram_enabled = value == 0x0A;
            },
            0x2000..=0x3FFF => {
                assert(value & 0x1F == value % 0x20) by (bit_vector);
                let lo = value & 0x1F;
                self.rom_bank_lo = if lo == 0 { 1 } else { lo };
            },
            0x4000..=0x5FFF => {
                assert(value & 0x03 == value % 0x04) by (bit_vector);
                self.bank_hi = value & 0x03;
            },
            0x6000..=0x7FFF => {
                assert(value & 0x01 == value % 0x02) by (bit_vector);
                self.ram_mode = value & 0x01 != 0;
            },
            // RAM takes the write only while it is enabled.
            0xA000..=0xBFFF => {
                if self.ram_enabled {
                    let offset = self.ram_bank() * 0x2000 + (addr as usize - 0xA000);
                    if offset < self.ram.len() {
                        self.ram[offset] = value;
                    }
                }
            },
            _ => {},
        }
        MemWrite::Block
    }
}

} // verus!
