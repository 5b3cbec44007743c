//! An emulator for the 8-bit processor of a home console: registers and
//! status flags, a mirrored 64 KiB bus with a read-only program window, the
//! addressing modes, the instruction set, its dispatch table and the
//! fetch/decode/execute engine, plus a reader for cartridge images.
use vstd::prelude::*;

pub mod cpu;
pub mod rom;
pub mod screen;
