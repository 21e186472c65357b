//! Verified hardware models of the Nintendo DS: registers, FIFOs, caches,
//! DMA, save chips, card encryption, video memory mapping, and the two
//! processors' memory maps.
pub mod bits;
pub mod ram;
pub mod interrupt;
pub mod joypad;
pub mod power;
pub mod maths;
pub mod cache;
pub mod wifi;
pub mod dma;
pub mod audio;
pub mod exmem;
pub mod spi;
pub mod card;
pub mod rtc;
pub mod video;
pub mod memory;
pub mod shared;
pub mod cp15;
pub mod ipc;
pub mod internal;
pub mod bus9;
pub mod bus7;
pub mod clock;
