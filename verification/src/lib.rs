//! A user-mode emulator for a small subset of the 32-bit x86 instruction
//! set: eight general-purpose registers, the carry/zero/sign/overflow flags,
//! a flat byte-addressable memory, and a fetch-decode-execute loop driven by
//! a 256-entry opcode dispatch table.

use vstd::prelude::*;

pub mod bios;
pub mod emulator;
pub mod function;
pub mod instruction;
pub mod io;
pub mod modrm;

verus! {

/// Register numbers of the eight 32-bit general-purpose registers.
pub const EAX: usize = 0;
pub const ECX: usize = 1;
pub const EDX: usize = 2;
pub const EBX: usize = 3;
pub const ESP: usize = 4;
pub const EBP: usize = 5;
pub const ESI: usize = 6;
pub const EDI: usize = 7;

/// Indices in the 8-bit register namespace: 0-3 name the low bytes of
/// EAX..EBX, 4-7 name the high bytes of the same registers.
pub const AL: usize = 0;
pub const CL: usize = 1;
pub const DL: usize = 2;
pub const BL: usize = 3;
pub const AH: usize = 4;
pub const CH: usize = 5;
pub const DH: usize = 6;
pub const BH: usize = 7;

pub const REGISTERS_COUNT: usize = 8;

/// Default size of the emulated RAM.
pub const MEMORY_SIZE: usize = 1024 * 1024;

/// The port number of the emulated serial console.
pub const SERIAL_PORT: u32 = 0x03f8;

} // verus!
