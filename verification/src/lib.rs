//! Bare-metal support for the Zynq-7000: register encodings, PHY and flash
//! register decoding, clock and timer arithmetic, with their contracts.

pub mod bits;
pub mod phy;
pub mod gic;
pub mod regs;
pub mod slcr;
pub mod mpcore;
pub mod time;
pub mod clocks;
pub mod timer;
pub mod ddr;
pub mod sdio;
pub mod sd_init;
pub mod flash;
pub mod ps7_init;
pub mod mio;
pub mod i2c;
pub mod eth;
pub mod dmac;
pub mod devc;
pub mod config;
