//! Register addresses and bit patterns of the chip that this core touches.
//!
//! Only the chip-common mode register (for the soft-reset command) and the
//! per-socket source-port register (for binding a socket to a local port) are
//! used by the lifecycle core; everything else about the register map belongs
//! to the outside collaborators.

use vstd::prelude::*;

verus! {

/// Block selector of the chip-common register block.
pub const COMMON: u8 = 0b00000000;

/// Address of the mode register inside the chip-common block.
pub const MODE: u16 = 0x0000;

/// Bit pattern written to the mode register to request a soft reset: the
/// high bit of the single payload byte.
pub const MODE_RESET: u8 = 0b10000000;

/// Address of the source-port register inside a socket's register block.
pub const SOCKET_SOURCE_PORT: u16 = 0x0004;

/// Block selector of the register block of the socket slot with the given
/// index: the eight slot blocks are interleaved with their buffer blocks,
/// four selectors apart, starting right after the chip-common block.
pub open spec fn spec_socket_block(index: u8) -> u8 {
    (1 + 4 * index) as u8
}

/// Computes the block selector of the register block of socket slot `index`.
pub fn socket_block(index: u8) -> (b: u8)
    requires
        index < 8,
    ensures
        b == spec_socket_block(index),
        b == 1 + 4 * index,
{
    1 + 4 * index
}

} // verus!
