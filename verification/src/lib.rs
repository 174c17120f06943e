//! Cycle-stepped model of the sound unit of an 8-bit console.

pub mod apu;
pub mod debug;
pub mod dmc;
pub mod envelope;
pub mod frame_counter;
pub mod length_counter;
pub mod noise;
pub mod pulse;
pub mod sweep;
pub mod triangle;
