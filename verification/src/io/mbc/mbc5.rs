//! MBC5.
//!
//! Supports up to 8MB ROM (512 banks of 16KB) and 128KB RAM (16 banks of 8KB).
//! Unlike MBC1, bank 0 is accessible in the 0x4000-0x7FFF window.
//!
//! Write registers:
//!   0x0000-0x1FFF  RAM enable
//!   0x2000-0x2FFF  ROM bank lower 8 bits
//!   0x3000-0x3FFF  ROM bank bit 8 (upper bit)
//!   0x4000-0x5FFF  RAM bank (0-0x0F)

use vstd::prelude::*;

use super::model::{byte_at, store, MbcState};
use super::Mbc;
use crate::mmu::{MemRead, MemWrite};

verus! {

/// The size of the RAM an MBC5 cartridge is given (128KB, the most it can map).
pub const MBC5_RAM_SIZE: usize = 0x20000;

/// The registers and memories of an MBC5 cartridge.
pub struct Mbc5State {
    pub rom: Seq<u8>,
    pub ram: Seq<u8>,
    /// 9-bit bank number (0-511).
    pub rom_bank: u16,
    pub ram_bank: u8,
    pub ram_enabled: bool,
}

impl Mbc5State {
    /// The state a freshly inserted cartridge with this ROM starts in.
    pub open spec fn initial(rom: Seq<u8>) -> Mbc5State {
        Mbc5State {
            rom,
            ram: Seq::new(MBC5_RAM_SIZE as nat, |i: int| 0u8),
            rom_bank: 1,
            ram_bank: 0,
            ram_enabled: false,
        }
    }

    /// RAM has its full size; the ROM bank is a 9-bit number and the RAM
    /// bank a 4-bit one.
    pub open spec fn wf(self) -> bool {
        &&& self.ram.len() == MBC5_RAM_SIZE
        &&& self.rom_bank <= 0x1FF
        &&& self.ram_bank <= 0x0F
    }

    /// Offset into RAM that an address of the RAM window reaches.
    pub open spec fn ram_offset(self, addr: u16) -> int {
        self.ram_bank * 0x2000 + (addr - 0xA000)
    }

    pub open spec fn read(self, addr: u16) -> MemRead {
        if addr <= 0x3FFF {
            MemRead::Replace(byte_at(self.rom, addr as int))
        } else if addr <= 0x7FFF {
            MemRead::Replace(byte_at(self.rom, self.rom_bank * 0x4000 + (addr - 0x4000)))
        } else if 0xA000 <= addr <= 0xBFFF {
            if self.ram_enabled {
                MemRead::Replace(byte_at(self.ram, self.ram_offset(addr)))
            } else {
                MemRead::Replace(0xFF)
            }
        } else {
            MemRead::PassThrough
        }
    }

    /// 0x2000-0x2FFF replaces the low eight bits of the ROM bank and keeps
    /// its upper bit; 0x3000-0x3FFF replaces the upper bit with the written
    /// value's lowest bit and keeps the low eight.
    pub open spec fn write(self, addr: u16, value: u8) -> Mbc5State {
        if addr <= 0x1FFF {
            Mbc5State { ram_enabled: value % 0x10 == 0x0A, ..self }
        } else if addr <= 0x2FFF {
            Mbc5State { rom_bank: ((self.rom_bank / 0x100) * 0x100 + value) as u16, ..self }
        } else if addr <= 0x3FFF {
            Mbc5State { rom_bank: (self.rom_bank % 0x100 + (value % 0x02) * 0x100) as u16, ..self }
        } else if addr <= 0x5FFF {
            Mbc5State { ram_bank: value % 0x10, ..self }
        } else if 0xA000 <= addr <= 0xBFFF && self.ram_enabled {
            Mbc5State { ram: store(self.ram, self.ram_offset(addr), value), ..self }
        } else {
            self
        }
    }
}

pub struct Mbc5 {
    rom: Vec<u8>,
    ram: Vec<u8>,
    rom_bank: u16,  // 9-bit bank number (0-511)
    ram_bank: u8,
    ram_enabled: bool,
}

impl View for Mbc5 {
    type V = Mbc5State;

    closed spec fn view(&self) -> Mbc5State {
        Mbc5State {
            rom: self.rom@,
            ram: self.ram@,
            rom_bank: self.rom_bank,
            ram_bank: self.ram_bank,
            ram_enabled: self.ram_enabled,
        }
    }
}

impl Mbc5 {
    #[verifier::type_invariant]
    spec fn registers_in_range(self) -> bool {
        self@.wf()
    }

    /// An MBC5 controller's state is an MBC5 state.
    pub proof fn lemma_state_kind(m: &Mbc5)
        ensures
            m.state() == MbcState::Mbc5(m@),
    {
    }

    pub(crate) fn new(rom: Vec<u8>) -> (r: Self)
        ensures
            r.state() == MbcState::Mbc5(Mbc5State::initial(rom@)),
    {
        let ram = vec![0; MBC5_RAM_SIZE];  // 128KB max
        let r = Self { rom, ram, rom_bank: 1, ram_bank: 0, ram_enabled: false };
        assert(r@.ram =~= Mbc5State::initial(rom@).ram);
        r
    }

    fn rom_read(&self, addr: usize) -> (byte: u8)
        ensures
            byte == byte_at(self@.rom, addr as int),
    {
        if addr < self.rom.len() {
            self.rom[addr]
        } else {
            0xFF
        }
    }
}

impl Mbc for Mbc5 {
    closed spec fn state(&self) -> MbcState {
        MbcState::Mbc5(self@)
    }

    fn get_name(&self) -> (name: &str) {
        proof {
            use_type_invariant(self);
        }
        "MBC5"
    }

    fn on_read(&self, addr: u16) -> (r: MemRead) {
        proof {
            use_type_invariant(self);
        }
        match addr {
            0x0000..=0x3FFF => MemRead::Replace(self.rom_read(addr as usize)),
            0x4000..=0x7FFF => {
                let offset = self.rom_bank as usize * 0x4000 + (addr as usize - 0x4000);
                MemRead::Replace(self.rom_read(offset))
            },
            0xA000..=0xBFFF if self.ram_enabled => {
                let offset = self.ram_bank as usize * 0x2000 + (addr as usize - 0xA000);
                MemRead::Replace(
                    if offset < self.ram.len() {
                        self.ram[offset]
                    } else {
                        0xFF
                    },
                )
            },
            0xA000..=0xBFFF => MemRead::Replace(0xFF),
            _ => MemRead::PassThrough,
        }
    }

    fn on_write(&mut self, addr: u16, value: u8) -> (r: MemWrite) {
        proof {
            use_type_invariant(&*self);
        }
        match addr {
            0x0000..=0x1FFF => {
                assert(value & 0x0F == value % 0x10) by (bit_vector);
                self.ram_enabled = value & 0x0F == 0x0A;
            },
            0x2000..=0x2FFF => {
                let bank = self.rom_bank;
                assert((bank & 0x100) | (value as u16) == (bank / 0x100) * 0x100 + value)
                    by (bit_vector)
                    requires
                        bank <= 0x1FF,
                ;
                self.rom_bank = (self.rom_bank & 0x100) | value as u16;
            },
            0x3000..=0x3FFF => {
                let bank = self.rom_bank;
                assert((bank & 0x0FF) | (((value as u16) & 0x01) << 8) == bank % 0x100 + (value
                    % 0x02) * 0x100) by (bit_vector);
                self.rom_bank = (self.rom_bank & 0x0FF) | ((value as u16 & 0x01) << 8);
            },
            0x4000..=0x5FFF => {
                assert(value & 0x0F == value % 0x10) by (bit_vector);
                self.ram_bank = value & 0x0F;
            },
            // RAM takes the write only while it is enabled.
            0xA000..=0xBFFF => {
                if self.ram_enabled {
                    let offset = self.ram_bank as usize * 0x2000 + (addr as usize - 0xA000);
                    if offset < self.ram.len() {
                        self.ram[offset] = value;
                    }
                }
            },
            _ => {},
        }
        MemWrite::Block
    }
}

} // verus!
