//! Why a ROM image was refused.
use vstd::prelude::*;

verus! {

#[derive(Clone, Copy, Debug, PartialEq, Eq, Structural)]
pub enum RomError {
    /// The image is no longer than its header (0x150 bytes).
    TooShort,
    /// Header byte 0x147 names a cartridge this core does not drive.
    UnsupportedCartridge(u8),
    /// Header byte 0x148 is no known ROM size.
    InvalidRomSize(u8),
    /// Header byte 0x149 is no known RAM size.
    InvalidRamSize(u8),
    /// The header checksum at 0x14D does not match the header.
    BadChecksum,
}

/// A state the machine cannot go on from.
#[derive(Clone, Copy, Debug, PartialEq, Eq, Structural)]
pub enum Fault {
    /// The byte fetched is none of the instruction set's opcodes.
    UnknownOpcode(u8),
    /// An interrupt is pending and enabled on a line with no vector (bit 5 to 7).
    UnknownInterrupt,
}

} // verus!
