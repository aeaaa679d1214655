//! The bitmap font: one 5x8 grid of cells for each supported character.
//!
//! The table is written so that the shape of each letter can be seen in the
//! source: `X` is an inked cell, `O` an empty one.

use vstd::prelude::*;

verus! {

/// Number of columns of a glyph.
pub const GLYPH_COLS: usize = 5;

/// Number of rows of a glyph.
pub const GLYPH_ROWS: usize = 8;

/// Number of characters that have a glyph.
pub const GLYPH_COUNT: usize = 56;

/// A glyph: eight rows of five cells, `true` where the cell is inked.
pub type Glyph = [[bool; 5]; 8];

/// An inked cell.
pub const X: bool = true;

/// An empty cell.
pub const O: bool = false;

/// The supported characters as ASCII codes, in the order of the glyphs in
/// [`FONT_DATA`]: `A` to `Z`, `a` to `z`, then `{`, `}`, `_` and the space.
pub const LETTER_DATA: [u8; 56] = [
    65, 66, 67, 68, 69, 70, 71, 72, 73, 74, 75, 76, 77,
    78, 79, 80, 81, 82, 83, 84, 85, 86, 87, 88, 89, 90,
    97, 98, 99, 100, 101, 102, 103, 104, 105, 106, 107, 108, 109,
    110, 111, 112, 113, 114, 115, 116, 117, 118, 119, 120, 121, 122,
    123, 125, 95, 32,
];

/// The glyphs, one for each entry of [`LETTER_DATA`].
pub const FONT_DATA: [[[bool; 5]; 8]; 56] = [
    // A
    [
        [O, X, X, X, O],
        [X, O, O, O, X],
        [X, O, O, O, X],
        [X, O, O, O, X],
        [X, X, X, X, X],
        [X, O, O, O, X],
        [X, O, O, O, X],
        [O, O, O, O, O],
    ],
    // B
    [
        [X, X, X, X, O],
        [X, O, O, O, X],
        [X, O, O, O, X],
        [X, X, X, X, O],
        [X, O, O, O, X],
        [X, O, O, O, X],
        [X, X, X, X, O],
        [O, O, O, O, O],
    ],
    // C
    [
        [O, X, X, X, O],
        [X, O, O, O, X],
        [X, O, O, O, O],
        [X, O, O, O, O],
        [X, O, O, O, O],
        [X, O, O, O, X],
        [O, X, X, X, O],
        [O, O, O, O, O],
    ],
    // D
    [
        [X, X, X, O, O],
        [X, O, O, X, O],
        [X, O, O, O, X],
        [X, O, O, O, X],
        [X, O, O, O, X],
        [X, O, O, X, O],
        [X, X, X, O, O],
        [O, O, O, O, O],
    ],
    // E
    [
        [X, X, X, X, X],
        [X, O, O, O, O],
        [X, O, O, O, O],
        [X, X, X, X, O],
        [X, O, O, O, O],
        [X, O, O, O, O],
        [X, X, X, X, X],
        [O, O, O, O, O],
    ],
    // F
    [
        [X, X, X, X, X],
        [X, O, O, O, O],
        [X, O, O, O, O],
        [X, X, X, X, O],
        [X, O, O, O, O],
        [X, O, O, O, O],
        [X, O, O, O, O],
        [O, O, O, O, O],
    ],
    // G
    [
        [O, X, X, X, O],
        [X, O, O, O, X],
        [X, O, O, O, O],
        [X, O, X, X, X],
        [X, O, O, O, X],
        [X, O, O, O, X],
        [O, X, X, X, O],
        [O, O, O, O, O],
    ],
    // H
    [
        [X, O, O, O, X],
        [X, O, O, O, X],
        [X, O, O, O, X],
        [X, X, X, X, X],
        [X, O, O, O, X],
        [X, O, O, O, X],
        [X, O, O, O, X],
        [O, O, O, O, O],
    ],
    // I
    [
        [O, X, X, X, O],
        [O, O, X, O, O],
        [O, O, X, O, O],
        [O, O, X, O, O],
        [O, O, X, O, O],
        [O, O, X, O, O],
        [O, X, X, X, O],
        [O, O, O, O, O],
    ],
    // J
    [
        [O, O, O, O, X],
        [O, O, O, O, X],
        [O, O, O, O, X],
        [O, O, O, O, X],
        [O, O, O, O, X],
        [X, O, O, O, X],
        [O, X, X, X, O],
        [O, O, O, O, O],
    ],
    // K
    [
        [X, O, O, O, X],
        [X, O, O, X, O],
        [X, O, X, O, O],
        [X, X, O, O, O],
        [X, O, X, O, O],
        [X, O, O, X, O],
        [X, O, O, O, X],
        [O, O, O, O, O],
    ],
    // L
    [
        [X, O, O, O, O],
        [X, O, O, O, O],
        [X, O, O, O, O],
        [X, O, O, O, O],
        [X, O, O, O, O],
        [X, O, O, O, O],
        [X, X, X, X, X],
        [O, O, O, O, O],
    ],
    // M
    [
        [X, O, O, O, X],
        [X, X, O, X, X],
        [X, O, X, O, X],
        [X, O, O, O, X],
        [X, O, O, O, X],
        [X, O, O, O, X],
        [X, O, O, O, X],
        [O, O, O, O, O],
    ],
    // N
    [
        [X, O, O, O, X],
        [X, X, O, O, X],
        [X, O, X, O, X],
        [X, O, O, X, X],
        [X, O, O, O, X],
        [X, O, O, O, X],
        [X, O, O, O, X],
        [O, O, O, O, O],
    ],
    // O
    [
        [O, X, X, X, O],
        [X, O, O, O, X],
        [X, O, O, O, X],
        [X, O, O, O, X],
        [X, O, O, O, X],
        [X, O, O, O, X],
        [O, X, X, X, O],
        [O, O, O, O, O],
    ],
    // P
    [
        [X, X, X, X, O],
        [X, O, O, O, X],
        [X, O, O, O, X],
        [X, X, X, X, O],
        [X, O, O, O, O],
        [X, O, O, O, O],
        [X, O, O, O, O],
        [O, O, O, O, O],
    ],
    // Q
    [
        [O, X, X, X, O],
        [X, O, O, O, X],
        [X, O, O, O, X],
        [X, O, O, O, X],
        [X, O, X, O, X],
        [X, O, O, X, O],
        [O, X, X, O, X],
        [O, O, O, O, O],
    ],
    // R
    [
        [X, X, X, X, O],
        [X, O, O, O, X],
        [X, O, O, O, X],
        [X, X, X, X, O],
        [X, O, X, O, O],
        [X, O, O, X, O],
        [X, O, O, O, X],
        [O, O, O, O, O],
    ],
    // S
    [
        [O, X, X, X, O],
        [X, O, O, O, X],
        [X, O, O, O, O],
        [O, X, X, X, O],
        [O, O, O, O, X],
        [X, O, O, O, X],
        [O, X, X, X, O],
        [O, O, O, O, O],
    ],
    // T
    [
        [X, X, X, X, X],
        [O, O, X, O, O],
        [O, O, X, O, O],
        [O, O, X, O, O],
        [O, O, X, O, O],
        [O, O, X, O, O],
        [O, O, X, O, O],
        [O, O, O, O, O],
    ],
    // U
    [
        [X, O, O, O, X],
        [X, O, O, O, X],
        [X, O, O, O, X],
        [X, O, O, O, X],
        [X, O, O, O, X],
        [X, O, O, O, X],
        [O, X, X, X, O],
        [O, O, O, O, O],
    ],
    // V
    [
        [X, O, O, O, X],
        [X, O, O, O, X],
        [X, O, O, O, X],
        [X, O, O, O, X],
        [O, X, O, X, O],
        [O, X, O, X, O],
        [O, O, X, O, O],
        [O, O, O, O, O],
    ],
    // W
    [
        [X, O, O, O, X],
        [X, O, O, O, X],
        [X, O, O, O, X],
        [X, O, X, O, X],
        [X, O, X, O, X],
        [X, X, O, X, X],
        [X, O, O, O, X],
        [O, O, O, O, O],
    ],
    // X
    [
        [X, O, O, O, X],
        [O, X, O, X, O],
        [O, O, X, O, O],
        [O, O, X, O, O],
        [O, O, X, O, O],
        [O, X, O, X, O],
        [X, O, O, O, X],
        [O, O, O, O, O],
    ],
    // Y
    [
        [X, O, O, O, X],
        [O, X, O, X, O],
        [O, O, X, O, O],
        [O, O, X, O, O],
        [O, O, X, O, O],
        [O, O, X, O, O],
        [O, O, X, O, O],
        [O, O, O, O, O],
    ],
    // Z
    [
        [X, X, X, X, X],
        [O, O, O, O, X],
        [O, O, O, X, O],
        [O, O, X, O, O],
        [O, X, O, O, O],
        [X, O, O, O, O],
        [X, X, X, X, X],
        [O, O, O, O, O],
    ],
    // a
    [
        [O, O, O, O, O],
        [O, O, O, O, O],
        [O, X, X, X, O],
        [O, O, O, O, X],
        [O, X, X, X, X],
        [X, O, O, O, X],
        [O, X, X, X, X],
        [O, O, O, O, O],
    ],
    // b
    [
        [X, O, O, O, O],
        [X, O, O, O, O],
        [X, X, X, X, O],
        [X, O, O, O, X],
        [X, O, O, O, X],
        [X, O, O, O, X],
        [X, X, X, X, O],
        [O, O, O, O, O],
    ],
    // c
    [
        [O, O, O, O, O],
        [O, O, O, O, O],
        [O, X, X, X, O],
        [X, O, O, O, X],
        [X, O, O, O, O],
        [X, O, O, O, X],
        [O, X, X, X, O],
        [O, O, O, O, O],
    ],
    // d
    [
        [O, O, O, O, X],
        [O, O, O, O, X],
        [O, X, X, X, X],
        [X, O, O, O, X],
        [X, O, O, O, X],
        [X, O, O, O, X],
        [O, X, X, X, X],
        [O, O, O, O, O],
    ],
    // e
    [
        [O, O, O, O, O],
        [O, O, O, O, O],
        [O, X, X, X, O],
        [X, O, O, O, X],
        [X, X, X, X, X],
        [X, O, O, O, O],
        [O, X, X, X, O],
        [O, O, O, O, O],
    ],
    // f
    [
        [O, O, X, X, O],
        [O, X, O, O, X],
        [O, X, O, O, O],
        [X, X, X, O, O],
        [O, X, O, O, O],
        [O, X, O, O, O],
        [O, X, O, O, O],
        [O, O, O, O, O],
    ],
    // g
    [
        [O, O, O, O, O],
        [O, O, O, O, O],
        [O, X, X, X, X],
        [X, O, O, O, X],
        [X, O, O, O, X],
        [O, X, X, X, X],
        [O, O, O, O, X],
        [O, X, X, X, O],
    ],
    // h
    [
        [X, O, O, O, O],
        [X, O, O, O, O],
        [X, X, X, X, O],
        [X, O, O, O, X],
        [X, O, O, O, X],
        [X, O, O, O, X],
        [X, O, O, O, X],
        [O, O, O, O, O],
    ],
    // i
    [
        [O, O, X, O, O],
        [O, O, O, O, O],
        [O, X, X, O, O],
        [O, O, X, O, O],
        [O, O, X, O, O],
        [O, O, X, O, O],
        [O, X, X, X, O],
        [O, O, O, O, O],
    ],
    // j
    [
        [O, O, O, X, O],
        [O, O, O, O, O],
        [O, O, X, X, O],
        [O, O, O, X, O],
        [O, O, O, X, O],
        [O, O, O, X, O],
        [X, O, O, X, O],
        [O, X, X, O, O],
    ],
    // k
    [
        [X, O, O, O, O],
        [X, O, O, O, O],
        [X, O, O, X, O],
        [X, O, X, O, O],
        [X, X, O, O, O],
        [X, O, X, O, O],
        [X, O, O, X, O],
        [O, O, O, O, O],
    ],
    // l
    [
        [O, X, X, O, O],
        [O, O, X, O, O],
        [O, O, X, O, O],
        [O, O, X, O, O],
        [O, O, X, O, O],
        [O, O, X, O, O],
        [O, X, X, X, O],
        [O, O, O, O, O],
    ],
    // m
    [
        [O, O, O, O, O],
        [O, O, O, O, O],
        [X, X, O, X, O],
        [X, O, X, O, X],
        [X, O, X, O, X],
        [X, O, X, O, X],
        [X, O, X, O, X],
        [O, O, O, O, O],
    ],
    // n
    [
        [O, O, O, O, O],
        [O, O, O, O, O],
        [X, X, X, X, O],
        [X, O, O, O, X],
        [X, O, O, O, X],
        [X, O, O, O, X],
        [X, O, O, O, X],
        [O, O, O, O, O],
    ],
    // o
    [
        [O, O, O, O, O],
        [O, O, O, O, O],
        [O, X, X, X, O],
        [X, O, O, O, X],
        [X, O, O, O, X],
        [X, O, O, O, X],
        [O, X, X, X, O],
        [O, O, O, O, O],
    ],
    // p
    [
        [O, O, O, O, O],
        [O, O, O, O, O],
        [X, X, X, X, O],
        [X, O, O, O, X],
        [X, O, O, O, X],
        [X, X, X, X, O],
        [X, O, O, O, O],
        [X, O, O, O, O],
    ],
    // q
    [
        [O, O, O, O, O],
        [O, O, O, O, O],
        [O, X, X, X, X],
        [X, O, O, O, X],
        [X, O, O, O, X],
        [O, X, X, X, X],
        [O, O, O, O, X],
        [O, O, O, O, X],
    ],
    // r
    [
        [O, O, O, O, O],
        [O, O, O, O, O],
        [X, O, X, X, O],
        [X, X, O, O, X],
        [X, O, O, O, O],
        [X, O, O, O, O],
        [X, O, O, O, O],
        [O, O, O, O, O],
    ],
    // s
    [
        [O, O, O, O, O],
        [O, O, O, O, O],
        [O, X, X, X, O],
        [X, O, O, O, O],
        [O, X, X, X, O],
        [O, O, O, O, X],
        [X, X, X, X, O],
        [O, O, O, O, O],
    ],
    // t
    [
        [O, X, O, O, O],
        [O, X, O, O, O],
        [X, X, X, O, O],
        [O, X, O, O, O],
        [O, X, O, O, O],
        [O, X, O, O, X],
        [O, O, X, X, O],
        [O, O, O, O, O],
    ],
    // u
    [
        [O, O, O, O, O],
        [O, O, O, O, O],
        [X, O, O, O, X],
        [X, O, O, O, X],
        [X, O, O, O, X],
        [X, O, O, O, X],
        [O, X, X, X, X],
        [O, O, O, O, O],
    ],
    // v
    [
        [O, O, O, O, O],
        [O, O, O, O, O],
        [X, O, O, O, X],
        [X, O, O, O, X],
        [O, X, O, X, O],
        [O, X, O, X, O],
        [O, O, X, O, O],
        [O, O, O, O, O],
    ],
    // w
    [
        [O, O, O, O, O],
        [O, O, O, O, O],
        [X, O, O, O, X],
        [X, O, X, O, X],
        [X, O, X, O, X],
        [X, O, X, O, X],
        [O, X, O, X, O],
        [O, O, O, O, O],
    ],
    // x
    [
        [O, O, O, O, O],
        [O, O, O, O, O],
        [X, O, O, O, X],
        [O, X, O, X, O],
        [O, O, X, O, O],
        [O, X, O, X, O],
        [X, O, O, O, X],
        [O, O, O, O, O],
    ],
    // y
    [
        [O, O, O, O, O],
        [O, O, O, O, O],
        [X, O, O, O, X],
        [X, O, O, O, X],
        [X, O, O, O, X],
        [O, X, X, X, X],
        [O, O, O, O, X],
        [O, X, X, X, O],
    ],
    // z
    [
        [O, O, O, O, O],
        [O, O, O, O, O],
        [X, X, X, X, X],
        [O, O, O, X, O],
        [O, O, X, O, O],
        [O, X, O, O, O],
        [X, X, X, X, X],
        [O, O, O, O, O],
    ],
    // {
    [
        [O, O, X, X, O],
        [O, X, O, O, O],
        [O, X, O, O, O],
        [X, O, O, O, O],
        [O, X, O, O, O],
        [O, X, O, O, O],
        [O, O, X, X, O],
        [O, O, O, O, O],
    ],
    // }
    [
        [O, X, X, O, O],
        [O, O, O, X, O],
        [O, O, O, X, O],
        [O, O, O, O, X],
        [O, O, O, X, O],
        [O, O, O, X, O],
        [O, X, X, O, O],
        [O, O, O, O, O],
    ],
    // _
    [
        [O, O, O, O, O],
        [O, O, O, O, O],
        [O, O, O, O, O],
        [O, O, O, O, O],
        [O, O, O, O, O],
        [O, O, O, O, O],
        [X, X, X, X, X],
        [O, O, O, O, O],
    ],
    // space
    [
        [O, O, O, O, O],
        [O, O, O, O, O],
        [O, O, O, O, O],
        [O, O, O, O, O],
        [O, O, O, O, O],
        [O, O, O, O, O],
        [O, O, O, O, O],
        [O, O, O, O, O],
    ],
];

} // verus!
