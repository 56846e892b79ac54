//! Register addresses, the cartridge logo and small helpers.

use vstd::prelude::*;

verus! {

/// Address of the input-selection register.
pub const JOYPAD_ADDRESS: u16 = 0xFF00;

/// Address of the visible upper byte of the divider (DIV).
pub const DIV_ADDRESS: u16 = 0xFF04;

/// Address of the timer counter (TIMA).
pub const TIMA_ADDRESS: u16 = 0xFF05;

/// Address of the timer reload value (TMA).
pub const TMA_ADDRESS: u16 = 0xFF06;

/// Address of the timer control register (TAC).
pub const TAC_ADDRESS: u16 = 0xFF07;

/// Address of the interrupt flag register (IF).
pub const INTERRUPT_F_ADDRESS: u16 = 0xFF0F;

/// Address of the display-control register.
pub const LCDC_ADDRESS: u16 = 0xFF40;

/// Address of the display-status register.
pub const STAT_ADDRESS: u16 = 0xFF41;

/// Address of the DMA-trigger register.
pub const DMA_ADDRESS: u16 = 0xFF46;

/// First address of the sprite table.
pub const OAM_START: u16 = 0xFE00;

/// Offset of the logo inside the cartridge header.
pub const LOGO_OFFSET: usize = 0x104;

/// Length of the logo in bytes.
pub const LOGO_LEN: usize = 48;

/// The logo signature that the boot sequence compares against.
pub open spec fn logo() -> Seq<u8> {
    seq![
        0xCEu8, 0xED, 0x66, 0x66, 0xCC, 0x0D, 0x00, 0x0B,
        0x03, 0x73, 0x00, 0x83, 0x00, 0x0C, 0x00, 0x0D,
        0x00, 0x08, 0x11, 0x1F, 0x88, 0x89, 0x00, 0x0E,
        0xDC, 0xCC, 0x6E, 0xE6, 0xDD, 0xDD, 0xD9, 0x99,
        0xBB, 0xBB, 0x67, 0x63, 0x6E, 0x0E, 0xEC, 0xCC,
        0xDD, 0xDC, 0x99, 0x9F, 0xBB, 0xB9, 0x33, 0x3E,
    ]
}

/// The logo signature as an array.
pub fn nintendo_logo() -> (r: [u8; 48])
    ensures
        r@ == logo(),
{
    let r: [u8; 48] = [
        0xCEu8, 0xED, 0x66, 0x66, 0xCC, 0x0D, 0x00, 0x0B,
        0x03, 0x73, 0x00, 0x83, 0x00, 0x0C, 0x00, 0x0D,
        0x00, 0x08, 0x11, 0x1F, 0x88, 0x89, 0x00, 0x0E,
        0xDC, 0xCC, 0x6E, 0xE6, 0xDD, 0xDD, 0xD9, 0x99,
        0xBB, 0xBB, 0x67, 0x63, 0x6E, 0x0E, 0xEC, 0xCC,
        0xDD, 0xDC, 0x99, 0x9F, 0xBB, 0xB9, 0x33, 0x3E,
    ];
    assert(r@ =~= logo());
    r
}

/// The 16-bit value whose low byte is `low` and whose high byte is `high`.
pub open spec fn word_of(low: u8, high: u8) -> u16 {
    (high as u16) << 8 | (low as u16)
}

/// Combines two bytes into a word, `low` being the less significant one.
pub fn little_endian_combine(low: u8, high: u8) -> (r: u16)
    ensures
        r == word_of(low, high),
        r == low as int + 256 * (high as int),
{
    proof {
        assert(((high as u16) << 8 | (low as u16)) == (low as u16) + 256 * (high as u16))
            by (bit_vector);
    }
    (high as u16) << 8 | (low as u16)
}

} // verus!
