//! The interface every bank controller offers the bus, and the choice of
//! controller from the cartridge type code.

use vstd::prelude::*;

use super::mbc1::{Mbc1, Mbc1State};
use super::mbc3::{Mbc3, Mbc3State};
use super::mbc5::{Mbc5, Mbc5State};
use super::mbc_none::{MbcNone, RomOnlyState};
use super::model::MbcState;
use crate::mmu::{MemRead, MemWrite};

verus! {

/// Memory Bank Controller.
///
/// Every controller keeps its register invariant (`state().wf()`); each
/// method's contract states it, so that any call shows it of the controller
/// at hand.
pub trait Mbc {
    /// The controller's state, as the contracts see it.
    spec fn state(&self) -> MbcState;

    /// The controller's display name.
    fn get_name(&self) -> (name: &str)
        ensures
            name@ == self.state().name(),
            self.state().wf(),
    ;

    /// What the controller answers to a read of `addr`. A cartridge
    /// without a controller indexes its ROM directly, so its ROM must reach
    /// every address below 0x8000 that is read.
    fn on_read(&self, addr: u16) -> (r: MemRead)
        requires
            self.state().readable(addr),
        ensures
            r == self.state().read(addr),
            self.state().wf(),
    ;

    /// Takes a write of `value` to `addr`: a register write, a RAM write, or
    /// nothing; the controller consumes it in every case.
    fn on_write(&mut self, addr: u16, value: u8) -> (r: MemWrite)
        ensures
            final(self).state() == old(self).state().write(addr, value),
            final(self).state().wf(),
            r == MemWrite::Block,
    ;
}

/// The controller of a cartridge, of whichever kind its header names. An
/// enum over the kinds, so that a contract can name the state of the one
/// chosen; it answers the bus as that controller does.
pub enum Controller {
    RomOnly(MbcNone),
    Mbc1(Mbc1),
    Mbc3(Mbc3),
    Mbc5(Mbc5),
}

impl Controller {
    /// A controller's state is the state of the controller it holds, of
    /// that controller's kind.
    pub proof fn lemma_state_kind(c: &Controller)
        ensures
            match c {
                Controller::RomOnly(m) => c.state() == m.state() && c.state() == MbcState::RomOnly(
                    m@,
                ),
                Controller::Mbc1(m) => c.state() == m.state() && c.state() == MbcState::Mbc1(m@),
                Controller::Mbc3(m) => c.state() == m.state() && c.state() == MbcState::Mbc3(m@),
                Controller::Mbc5(m) => c.state() == m.state() && c.state() == MbcState::Mbc5(m@),
            },
    {
        match c {
            Controller::RomOnly(m) => MbcNone::lemma_state_kind(m),
            Controller::Mbc1(m) => Mbc1::lemma_state_kind(m),
            Controller::Mbc3(m) => Mbc3::lemma_state_kind(m),
            Controller::Mbc5(m) => Mbc5::lemma_state_kind(m),
        }
    }
}

impl Mbc for Controller {
    closed spec fn state(&self) -> MbcState {
        match self {
            Controller::RomOnly(m) => m.state(),
            Controller::Mbc1(m) => m.state(),
            Controller::Mbc3(m) => m.state(),
            Controller::Mbc5(m) => m.state(),
        }
    }

    fn get_name(&self) -> (name: &str) {
        match self {
            Controller::RomOnly(m) => m.get_name(),
            Controller::Mbc1(m) => m.get_name(),
            Controller::Mbc3(m) => m.get_name(),
            Controller::Mbc5(m) => m.get_name(),
        }
    }

    fn on_read(&self, addr: u16) -> (r: MemRead) {
        match self {
            Controller::RomOnly(m) => m.on_read(addr),
            Controller::Mbc1(m) => m.on_read(addr),
            Controller::Mbc3(m) => m.on_read(addr),
            Controller::Mbc5(m) => m.on_read(addr),
        }
    }

    fn on_write(&mut self, addr: u16, value: u8) -> (r: MemWrite) {
        match self {
            Controller::RomOnly(m) => m.on_write(addr, value),
            Controller::Mbc1(m) => m.on_write(addr, value),
            Controller::Mbc3(m) => m.on_write(addr, value),
            Controller::Mbc5(m) => m.on_write(addr, value),
        }
    }
}

/// The cartridge type codes for which a controller exists.
pub open spec fn is_supported_code(code: u8) -> bool {
    ||| code == 0x00
    ||| is_mbc1_code(code)
    ||| is_mbc3_code(code)
    ||| is_mbc5_code(code)
}

pub open spec fn is_mbc1_code(code: u8) -> bool {
    0x01 <= code <= 0x03
}

pub open spec fn is_mbc3_code(code: u8) -> bool {
    0x0f <= code <= 0x13
}

pub open spec fn is_mbc5_code(code: u8) -> bool {
    0x19 <= code <= 0x1e
}

/// The state of the controller that cartridge type `code` names, fresh,
/// over this ROM.
pub open spec fn initial_state(code: u8, rom: Seq<u8>) -> MbcState {
    if is_mbc1_code(code) {
        MbcState::Mbc1(Mbc1State::initial(rom))
    } else if is_mbc3_code(code) {
        MbcState::Mbc3(Mbc3State::initial(rom))
    } else if is_mbc5_code(code) {
        MbcState::Mbc5(Mbc5State::initial(rom))
    } else {
        MbcState::RomOnly(RomOnlyState { rom })
    }
}

/// The controller that cartridge type `code` names, over this ROM. The
/// codes of controllers that do not exist here, and codes that name no
/// cartridge type, are left out.
pub fn new(code: u8, rom: Vec<u8>) -> (r: Controller)
    requires
        is_supported_code(code),
    ensures
        r.state() == initial_state(code, rom@),
        r.state().wf(),
{
    match code {
        0x00 => Controller::RomOnly(MbcNone::new(rom)),
        0x01 | 0x02 | 0x03 => Controller::Mbc1(Mbc1::new(rom)),
        0x0f | 0x10 | 0x11 | 0x12 | 0x13 => Controller::Mbc3(Mbc3::new(rom)),
        // 0x19 | 0x1a | 0x1b | 0x1c | 0x1d | 0x1e: the only codes left
        _ => Controller::Mbc5(Mbc5::new(rom)),
    }
}

} // verus!
