//! A cartridge without a bank controller: 32 KiB of ROM, nothing to switch.

use vstd::prelude::*;

use super::model::MbcState;
use super::Mbc;
use crate::mmu::{MemRead, MemWrite};

verus! {

/// What a cartridge without a controller holds: its ROM.
pub struct RomOnlyState {
    pub rom: Seq<u8>,
}

impl RomOnlyState {
    /// Reads of `0x0000-0x7FFF` index the ROM directly, so the ROM must
    /// reach the address.
    pub open spec fn readable(self, addr: u16) -> bool {
        addr <= 0x7FFF ==> addr < self.rom.len()
    }

    /// `0x0000-0x7FFF` reads the ROM byte at the address; anything else
    /// passes through.
    pub open spec fn read(self, addr: u16) -> MemRead {
        if addr <= 0x7FFF {
            MemRead::Replace(self.rom[addr as int])
        } else {
            MemRead::PassThrough
        }
    }

    /// Writes change nothing.
    pub open spec fn write(self, addr: u16, value: u8) -> RomOnlyState {
        self
    }
}

pub struct MbcNone {
    rom: Vec<u8>,
}

impl View for MbcNone {
    type V = RomOnlyState;

    closed spec fn view(&self) -> RomOnlyState {
        RomOnlyState { rom: self.rom@ }
    }
}

impl MbcNone {
    /// The state of a cartridge without a controller is a ROM-only state.
    pub proof fn lemma_state_kind(m: &MbcNone)
        ensures
            m.state() == MbcState::RomOnly(m@),
    {
    }

    pub(crate) fn new(rom: Vec<u8>) -> (r: Self)
        ensures
            r@ == (RomOnlyState { rom: rom@ }),
            r.state() == MbcState::RomOnly(RomOnlyState { rom: rom@ }),
    {
        Self { rom }
    }
}

impl Mbc for MbcNone {
    closed spec fn state(&self) -> MbcState {
        MbcState::RomOnly(self@)
    }

    fn get_name(&self) -> (name: &str) {
        "ROM Only"
    }

    fn on_read(&self, addr: u16) -> (r: MemRead) {
        if addr <= 0x7FFF {
            MemRead::Replace(self.rom[addr as usize])
        } else {
            MemRead::PassThrough
        }
    }

    fn on_write(&mut self, _addr: u16, _value: u8) -> (r: MemWrite) {
        // Writes to ROM space are silently ignored (no MBC to handle bank switching)
        MemWrite::Block
    }
}

} // verus!
