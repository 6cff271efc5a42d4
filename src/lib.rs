#![allow(non_camel_case_types)]

pub mod cpu;
pub mod gpu;
pub mod instruction;
pub mod joypad;
pub mod ppu;
pub mod ram;
pub mod register;
pub mod semantics;
pub mod serial;
pub mod timer;
