//! Memory bank controllers: the cartridge hardware that maps ROM and RAM
//! banks into the CPU's address space.

pub mod mbc;
pub mod mbc1;
pub mod mbc3;
pub mod mbc5;
pub mod mbc_none;
pub mod bank_laws;
pub mod laws;
pub mod model;

pub use self::mbc::{new, Controller, Mbc};
