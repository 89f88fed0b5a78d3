//! MBC3.
//!
//! Supports up to 2MB ROM (128 banks) and 32KB RAM (4 banks).
//! Has an optional real-time clock (stubbed — reads return 0).
//!
//! Write registers:
//!   0x0000-0x1FFF  RAM/RTC enable
//!   0x2000-0x3FFF  ROM bank (7 bits, 0 treated as 1)
//!   0x4000-0x5FFF  RAM bank (0-3) or RTC register select (0x08-0x0C)
//!   0x6000-0x7FFF  Latch clock data (ignored)

use vstd::prelude::*;

use super::model::{byte_at, store, MbcState};
use super::Mbc;
use crate::mmu::{MemRead, MemWrite};

verus! {

/// The size of the RAM an MBC3 cartridge is given (32KB).
pub const MBC3_RAM_SIZE: usize = 0x8000;

/// The registers and memories of an MBC3 cartridge.
pub struct Mbc3State {
    pub rom: Seq<u8>,
    pub ram: Seq<u8>,
    pub rom_bank: u8,
    /// RAM bank (0-3), or the selected clock register.
    pub ram_bank: u8,
    pub ram_enabled: bool,
}

impl Mbc3State {
    /// The state a freshly inserted cartridge with this ROM starts in.
    pub open spec fn initial(rom: Seq<u8>) -> Mbc3State {
        Mbc3State {
            rom,
            ram: Seq::new(MBC3_RAM_SIZE as nat, |i: int| 0u8),
            rom_bank: 1,
            ram_bank: 0,
            ram_enabled: false,
        }
    }

    /// RAM has its full size; the ROM bank is a nonzero 7-bit number.
    pub open spec fn wf(self) -> bool {
        &&& self.ram.len() == MBC3_RAM_SIZE
        &&& 1 <= self.rom_bank <= 0x7F
    }

    /// The RAM window shows RAM, rather than a clock register.
    pub open spec fn ram_selected(self) -> bool {
        self.ram_enabled && self.ram_bank <= 0x03
    }

    /// Offset into RAM that an address of the RAM window reaches.
    pub open spec fn ram_offset(self, addr: u16) -> int {
        self.ram_bank * 0x2000 + (addr - 0xA000)
    }

    pub open spec fn read(self, addr: u16) -> MemRead {
        if addr <= 0x3FFF {
            MemRead::Replace(byte_at(self.rom, addr as int))
        } else if addr <= 0x7FFF {
            MemRead::Replace(byte_at(self.rom, self.rom_bank * 0x4000 + (addr - 0x4000)))
        } else if 0xA000 <= addr <= 0xBFFF {
            if self.ram_selected() {
                MemRead::Replace(byte_at(self.ram, self.ram_offset(addr)))
            } else if self.ram_enabled {
                // clock registers are not emulated
                MemRead::Replace(0x00)
            } else {
                MemRead::Replace(0xFF)
            }
        } else {
            MemRead::PassThrough
        }
    }

    pub open spec fn write(self, addr: u16, value: u8) -> Mbc3State {
        if addr <= 0x1FFF {
            Mbc3State { ram_enabled: value % 0x10 == 0x0A, ..self }
        } else if addr <= 0x3FFF {
            let bank = value % 0x80;
            Mbc3State { rom_bank: if bank == 0 { 1 } else { bank }, ..self }
        } else if addr <= 0x5FFF {
            Mbc3State { ram_bank: value, ..self }
        } else if 0xA000 <= addr <= 0xBFFF && self.ram_selected() {
            Mbc3State { ram: store(self.ram, self.ram_offset(addr), value), ..self }
        } else {
            self
        }
    }
}

pub struct Mbc3 {
    rom: Vec<u8>,
    ram: Vec<u8>,
    rom_bank: u8,
    ram_bank: u8,
    ram_enabled: bool,
}

impl View for Mbc3 {
    type V = Mbc3State;

    closed spec fn view(&self) -> Mbc3State {
        Mbc3State {
            rom: self.rom@,
            ram: self.ram@,
            rom_bank: self.rom_bank,
            ram_bank: self.ram_bank,
            ram_enabled: self.ram_enabled,
        }
    }
}

impl Mbc3 {
    #[verifier::type_invariant]
    spec fn registers_in_range(self) -> bool {
        self@.wf()
    }

    /// An MBC3 controller's state is an MBC3 state.
    pub proof fn lemma_state_kind(m: &Mbc3)
        ensures
            m.state() == MbcState::Mbc3(m@),
    {
    }

    pub(crate) fn new(rom: Vec<u8>) -> (r: Self)
        ensures
            r.state() == MbcState::Mbc3(Mbc3State::initial(rom@)),
    {
        let ram = vec![0; MBC3_RAM_SIZE];
        let r = Self { rom, ram, rom_bank: 1, ram_bank: 0, ram_enabled: false };
        assert(r@.ram =~= Mbc3State::initial(rom@).ram);
        r
    }

    fn rom_read(&self, addr: usize) -> (byte: u8)
        ensures
            byte == byte_at(self@.rom, addr as int),
    {
        if addr < self.rom.len() {
            self.rom[addr]
        } else {
            0xFF
        }
    }
}

impl Mbc for Mbc3 {
    closed spec fn state(&self) -> MbcState {
        MbcState::Mbc3(self@)
    }

    fn get_name(&self) -> (name: &str) {
        proof {
            use_type_invariant(self);
        }
        "MBC3"
    }

    fn on_read(&self, addr: u16) -> (r: MemRead) {
        proof {
            use_type_invariant(self);
        }
        match addr {
            0x0000..=0x3FFF => MemRead::Replace(self.rom_read(addr as usize)),
            0x4000..=0x7FFF => {
                let offset = self.rom_bank as usize * 0x4000 + (addr as usize - 0x4000);
                MemRead::Replace(self.rom_read(offset))
            },
            0xA000..=0xBFFF if self.ram_enabled && self.ram_bank <= 0x03 => {
                let offset = self.ram_bank as usize * 0x2000 + (addr as usize - 0xA000);
                MemRead::Replace(
                    if offset < self.ram.len() {
                        self.ram[offset]
                    } else {
                        0xFF
                    },
                )
            },
            0xA000..=0xBFFF if self.ram_enabled => {
                // RTC registers — stub, return 0
                MemRead::Replace(0x00)
            },
            0xA000..=0xBFFF => MemRead::Replace(0xFF),
            _ => MemRead::PassThrough,
        }
    }

    fn on_write(&mut self, addr: u16, value: u8) -> (r: MemWrite) {
        proof {
            use_type_invariant(&*self);
        }
        match addr {
            0x0000..=0x1FFF => {
                assert(value & 0x0F == value % 0x10) by (bit_vector);
                self.ram_enabled = value & 0x0F == 0x0A;
            },
            0x2000..=0x3FFF => {
                assert(value & 0x7F == value % 0x80) by (bit_vector);
                let bank = value & 0x7F;
                self.rom_bank = if bank == 0 { 1 } else { bank };
            },
            0x4000..=0x5FFF => {
                self.ram_bank = value;
            },
            0x6000..=0x7FFF => {
                // RTC latch — ignored
            },
            // RAM takes the write only while it is enabled and a RAM bank,
            // not a clock register, is selected.
            0xA000..=0xBFFF => {
                if self.ram_enabled && self.ram_bank <= 0x03 {
                    let offset = self.ram_bank as usize * 0x2000 + (addr as usize - 0xA000);
                    if offset < self.ram.len() {
                        self.ram[offset] = value;
                    }
                }
            },
            _ => {},
        }
        MemWrite::Block
    }
}

} // verus!
