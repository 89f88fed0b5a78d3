//! The state of a bank controller as the contracts see it, whatever its kind.

use vstd::prelude::*;

use super::mbc1::Mbc1State;
use super::mbc3::Mbc3State;
use super::mbc5::Mbc5State;
use super::mbc_none::RomOnlyState;
use crate::mmu::MemRead;

verus! {

/// The byte at `offset` of `mem`, or `0xFF` (an open bus) past its end.
pub open spec fn byte_at(mem: Seq<u8>, offset: int) -> u8 {
    if 0 <= offset < mem.len() {
        mem[offset]
    } else {
        0xFF
    }
}

/// `mem` with the byte at `offset` replaced by `value`; unchanged where
/// `offset` lies past its end.
pub open spec fn store(mem: Seq<u8>, offset: int, value: u8) -> Seq<u8> {
    if 0 <= offset < mem.len() {
        mem.update(offset, value)
    } else {
        mem
    }
}

/// The state of a cartridge's bank controller, tagged by its kind.
pub enum MbcState {
    RomOnly(RomOnlyState),
    Mbc1(Mbc1State),
    Mbc3(Mbc3State),
    Mbc5(Mbc5State),
}

impl MbcState {
    /// The register invariant that every controller keeps.
    pub open spec fn wf(self) -> bool {
        match self {
            MbcState::RomOnly(_) => true,
            MbcState::Mbc1(s) => s.wf(),
            MbcState::Mbc3(s) => s.wf(),
            MbcState::Mbc5(s) => s.wf(),
        }
    }

    /// A read of `addr` does not run past the data it must return.
    pub open spec fn readable(self, addr: u16) -> bool {
        match self {
            MbcState::RomOnly(s) => s.readable(addr),
            _ => true,
        }
    }

    /// What the controller answers to a read of `addr`.
    pub open spec fn read(self, addr: u16) -> MemRead {
        match self {
            MbcState::RomOnly(s) => s.read(addr),
            MbcState::Mbc1(s) => s.read(addr),
            MbcState::Mbc3(s) => s.read(addr),
            MbcState::Mbc5(s) => s.read(addr),
        }
    }

    /// The controller's state after a write of `value` to `addr`.
    pub open spec fn write(self, addr: u16, value: u8) -> MbcState {
        match self {
            MbcState::RomOnly(s) => MbcState::RomOnly(s.write(addr, value)),
            MbcState::Mbc1(s) => MbcState::Mbc1(s.write(addr, value)),
            MbcState::Mbc3(s) => MbcState::Mbc3(s.write(addr, value)),
            MbcState::Mbc5(s) => MbcState::Mbc5(s.write(addr, value)),
        }
    }

    /// The RAM enable register is set.
    pub open spec fn ram_enabled(self) -> bool {
        match self {
            MbcState::RomOnly(_) => false,
            MbcState::Mbc1(s) => s.ram_enabled,
            MbcState::Mbc3(s) => s.ram_enabled,
            MbcState::Mbc5(s) => s.ram_enabled,
        }
    }

    /// Cartridge RAM answers in the window 0xA000-0xBFFF.
    pub open spec fn ram_mapped(self) -> bool {
        match self {
            MbcState::RomOnly(_) => false,
            MbcState::Mbc1(s) => s.ram_enabled,
            MbcState::Mbc3(s) => s.ram_selected(),
            MbcState::Mbc5(s) => s.ram_enabled,
        }
    }

    /// The cartridge ROM behind the controller.
    pub open spec fn rom(self) -> Seq<u8> {
        match self {
            MbcState::RomOnly(s) => s.rom,
            MbcState::Mbc1(s) => s.rom,
            MbcState::Mbc3(s) => s.rom,
            MbcState::Mbc5(s) => s.rom,
        }
    }

    /// The controller's display name.
    pub open spec fn name(self) -> Seq<char> {
        match self {
            MbcState::RomOnly(_) => "ROM Only"@,
            MbcState::Mbc1(_) => "MBC1"@,
            MbcState::Mbc3(_) => "MBC3"@,
            MbcState::Mbc5(_) => "MBC5"@,
        }
    }
}

} // verus!
