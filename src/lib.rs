//! The execution core of a cartridge console: the 6502-family CPU, its
//! opcode table and addressing modes, and the bus that maps its 16-bit
//! address space onto RAM, device registers and cartridge ROM.

use vstd::prelude::*;

pub mod bitset;
pub mod error;
pub mod nes;
pub mod text;
