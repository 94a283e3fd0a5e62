//! A verified Nintendo Entertainment System: bus, clock, sound unit, cartridge boards and saves.
pub mod apu;
pub mod audio;
pub mod bits;
pub mod bus;
pub mod clock;
pub mod fds;
pub mod mapper;
pub mod mem;
pub mod ppu;
pub mod rom;
pub mod save_state;
pub mod text;
