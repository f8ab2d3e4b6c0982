//! The fixed bring-up program for the machine: it exercises the stack,
//! subroutine calls and the TTY, printing a greeting. It is a test fixture,
//! not part of the engine.

use vstd::prelude::*;

verus! {

/// The bring-up image, 236 bytes, loaded at address 0.
pub const DEBUG_ROM: [u8; 236] = [
    0x1C, 0x00, 0x00, 0x07, 0xED, 0x1F, 0x08, 0x61, 0x1F, 0x0B, 0x98, 0x01,
    0xED, 0x1D, 0x00, 0x1F, 0x12, 0x68, 0x23, 0x00, 0x24, 0xA9, 0x1F, 0x19,
    0x24, 0x23, 0x00, 0x1F, 0x1E, 0x31, 0x1A, 0xED, 0x1F, 0x23, 0x41, 0x10,
    0x21, 0x07, 0xEF, 0x02, 0xEF, 0x0A, 0x30, 0x0F, 0x1A, 0xEF, 0x09, 0x27,
    0x20, 0x00, 0x20, 0x07, 0xEF, 0x01, 0xEF, 0x0F, 0x1A, 0xEF, 0x05, 0x7F,
    0x0A, 0x40, 0x09, 0x35, 0x20, 0x00, 0x00, 0x07, 0xEF, 0x00, 0x01, 0x07,
    0xEE, 0x1F, 0x4C, 0x61, 0x01, 0xEF, 0x04, 0xEE, 0x0B, 0x60, 0x1D, 0x00,
    0x1F, 0x57, 0x68, 0x01, 0xEE, 0x07, 0xEF, 0x1E, 0x07, 0xEE, 0x09, 0x49,
    0x20, 0x00, 0x0A, 0x0F, 0x00, 0x0D, 0x0F, 0x20, 0x21, 0x14, 0x00, 0x14,
    0x00, 0x14, 0x00, 0x14, 0x00, 0x1D, 0x00, 0x1F, 0x76, 0x81, 0x23, 0x00,
    0x21, 0x1D, 0x00, 0x1F, 0x7E, 0x81, 0x23, 0x00, 0x20, 0x21, 0x15, 0x0F,
    0x15, 0xFF, 0x03, 0x30, 0x22, 0x00, 0x05, 0x3A, 0x0B, 0x90, 0x09, 0x95,
    0x21, 0x03, 0x07, 0x22, 0x00, 0x21, 0x0F, 0x20, 0x00, 0x30, 0x07, 0xEF,
    0x00, 0x2A, 0x0F, 0x1B, 0xEF, 0x0A, 0xA5, 0x09, 0x9C, 0x1F, 0xA8, 0x61,
    0x20, 0x3A, 0x20, 0x48, 0x65, 0x6C, 0x6C, 0x6F, 0x2C, 0x20, 0x57, 0x6F,
    0x72, 0x6C, 0x64, 0x21, 0x0A, 0x0D, 0x49, 0x27, 0x6D, 0x20, 0x61, 0x6E,
    0x20, 0x38, 0x2D, 0x62, 0x69, 0x74, 0x20, 0x54, 0x54, 0x4C, 0x20, 0x63,
    0x6F, 0x6D, 0x70, 0x75, 0x74, 0x65, 0x72, 0x2C, 0x20, 0x6E, 0x6F, 0x77,
    0x20, 0x77, 0x69, 0x74, 0x68, 0x20, 0x61, 0x20, 0x73, 0x74, 0x61, 0x63,
    0x6B, 0x21, 0x20, 0x3A, 0x44, 0x0A, 0x0D, 0x00,
];

/// The bring-up image as a byte sequence.
pub open spec fn debug_rom_seq() -> Seq<u8> {
    DEBUG_ROM@
}

} // verus!
