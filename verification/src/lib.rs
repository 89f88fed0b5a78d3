//! Cartridge memory bank controllers of a Game Boy emulator, with the
//! small pieces of front-end logic that sit around them.

pub mod io;
pub mod mmu;
pub mod input;
pub mod frontend;
