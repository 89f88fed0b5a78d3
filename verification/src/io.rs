//! Devices that answer the memory bus.

pub mod mbc;
