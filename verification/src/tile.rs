//! Decoding of tile rows: two bytes hold eight pixels of two bits each.

use vstd::prelude::*;

verus! {

/// The colour index of pixel `j` of a row: bit `j` of the low byte, and bit
/// `j` of the high byte above it.
pub open spec fn pixel(low: u8, high: u8, j: u8) -> u8 {
    (low >> j) & 1 | ((high >> j) & 1) << 1
}

/// The packed row with only its first `n` pixels filled in.
pub open spec fn row_prefix(low: u8, high: u8, n: u8) -> u16
    decreases n,
{
    if n == 0 {
        0u16
    } else {
        let j = (n - 1) as u8;
        row_prefix(low, high, j) | (pixel(low, high, j) as u16) << ((j * 2) as u8)
    }
}

/// The packed row: pixel `j` occupies bits `2j` and `2j + 1`.
pub open spec fn tile_row(low: u8, high: u8) -> u16 {
    row_prefix(low, high, 8)
}

/// Packs the eight pixels of a row into a word.
pub fn decode_row(low: u8, high: u8) -> (row: u16)
    ensures
        row == tile_row(low, high),
{
    let mut line_data: u16 = 0;
    let mut j: u8 = 0;
    while j < 8
        invariant
            j <= 8,
            line_data == row_prefix(low, high, j),
        decreases 8 - j,
    {
        let new_pixel = (low >> j) & 1 | ((high >> j) & 1) << 1;
        line_data = line_data | (new_pixel as u16) << (j * 2);
        j += 1;
    }
    line_data
}

/// Each pixel can be read back from the packed row: bits `2j` and `2j + 1`
/// of the row are the colour index of pixel `j`, for every pair of bytes.
pub proof fn lemma_row_holds_each_pixel(low: u8, high: u8, j: u8)
    requires
        j < 8,
    ensures
        (tile_row(low, high) >> ((2 * j) as u8)) & 3 == pixel(low, high, j) as u16,
        pixel(low, high, j) <= 3,
{
    reveal_with_fuel(row_prefix, 9);
    let row = tile_row(low, high);
    let p0 = pixel(low, high, 0) as u16;
    let p1 = pixel(low, high, 1) as u16;
    let p2 = pixel(low, high, 2) as u16;
    let p3 = pixel(low, high, 3) as u16;
    let p4 = pixel(low, high, 4) as u16;
    let p5 = pixel(low, high, 5) as u16;
    let p6 = pixel(low, high, 6) as u16;
    let p7 = pixel(low, high, 7) as u16;
    assert(row == 0u16 | p0 << 0u8 | p1 << 2u8 | p2 << 4u8 | p3 << 6u8 | p4 << 8u8 | p5 << 10u8
        | p6 << 12u8 | p7 << 14u8);
    assert(forall|l: u8, h: u8, k: u8| #[trigger] pixel(l, h, k) <= 3) by (bit_vector);
    let p = pixel(low, high, j) as u16;
    assert(p == if j == 0 {
        p0
    } else if j == 1 {
        p1
    } else if j == 2 {
        p2
    } else if j == 3 {
        p3
    } else if j == 4 {
        p4
    } else if j == 5 {
        p5
    } else if j == 6 {
        p6
    } else {
        p7
    });
    let s = (2 * j) as u8;
    assert((row >> s) & 3 == p) by (bit_vector)
        requires
            j < 8,
            s == 2 * j,
            p0 <= 3 && p1 <= 3 && p2 <= 3 && p3 <= 3 && p4 <= 3 && p5 <= 3 && p6 <= 3 && p7 <= 3,
            row == 0u16 | p0 << 0u8 | p1 << 2u8 | p2 << 4u8 | p3 << 6u8 | p4 << 8u8 | p5 << 10u8
                | p6 << 12u8 | p7 << 14u8,
            p == if j == 0 {
                p0
            } else if j == 1 {
                p1
            } else if j == 2 {
                p2
            } else if j == 3 {
                p3
            } else if j == 4 {
                p4
            } else if j == 5 {
                p5
            } else if j == 6 {
                p6
            } else {
                p7
            },
    ;
}

} // verus!
