//! Verified model of the Konami VRC7 cartridge mapper and its FM sound unit.

pub mod vrc7_channel;
pub mod vrc7_audio;
pub mod memoryblock;
pub mod mirroring;
pub mod vrc7;
pub mod cartridge;
