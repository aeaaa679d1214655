//! Stamping glyphs into a pixel buffer.
//!
//! A buffer is a row-major sequence of pixels with its origin at the top
//! left: the pixel at index `i` of a buffer that is `width` pixels wide lies
//! in column `i % width` of row `i / width`. Glyphs may be drawn anywhere,
//! also partly or wholly outside the buffer; what falls outside is dropped.

use vstd::prelude::*;
use vstd::arithmetic::div_mod::{lemma_fundamental_div_mod, lemma_fundamental_div_mod_converse};
use crate::font::Glyph;
use crate::geometry::Size;

verus! {

/// Opaque black, the background.
pub const BLACK: u32 = 0xFF000000;

/// Opaque green, the colour of the monitor's edge zone.
pub const GREEN: u32 = 0xFF00FF00;

/// Opaque white, the colour of the text.
pub const WHITE: u32 = 0xFFFFFFFF;

/// Side of the square of pixels that stands for one cell of a glyph.
pub const SCALE: i32 = 3;

/// Distance from the start of one character to the start of the next: five
/// cells of glyph and one of spacing, each `SCALE` pixels wide.
pub const ADVANCE: i32 = 6 * SCALE;

/// The column of the pixel at index `i` of a buffer `width` pixels wide.
pub open spec fn column_of(i: int, width: int) -> int {
    i % width
}

/// The row of the pixel at index `i` of a buffer `width` pixels wide.
pub open spec fn row_of(i: int, width: int) -> int {
    i / width
}

/// Whether `glyph`, drawn with its top-left corner at `(x, y)` and `scale`
/// pixels to a cell, inks the pixel `(px, py)`: the cell that the pixel falls
/// into is one of the glyph's, and inked.
pub open spec fn glyph_inks(glyph: Glyph, x: int, y: int, scale: int, px: int, py: int) -> bool {
    &&& scale > 0
    &&& 0 <= (px - x) / scale < 5
    &&& 0 <= (py - y) / scale < 8
    &&& glyph[(py - y) / scale][(px - x) / scale]
}

/// Whether a text of `glyphs`, drawn from `(x, y)` at `SCALE` with one glyph
/// every `ADVANCE` pixels, inks the pixel `(px, py)`.
pub open spec fn text_inks(glyphs: Seq<Glyph>, x: int, y: int, px: int, py: int) -> bool {
    let k = (px - x) / (ADVANCE as int);
    &&& 0 <= k < glyphs.len()
    &&& glyph_inks(glyphs[k], x + k * ADVANCE, y, SCALE as int, px, py)
}

/// The index of a pixel determines its column and row, and the other way
/// round.
pub proof fn lemma_pixel_index(width: int, px: int, py: int, i: int)
    requires
        width > 0,
        0 <= px < width,
    ensures
        (column_of(i, width) == px && row_of(i, width) == py) <==> i == py * width + px,
{
    lemma_fundamental_div_mod(i, width);
    if i == py * width + px {
        lemma_fundamental_div_mod_converse(i, width, py, px);
    }
    assert(width * py == py * width) by (nonlinear_arith);
    assert(width * (i / width) == (i / width) * width) by (nonlinear_arith);
}

/// A distance `d` falls into the cell `cell` of side `scale` exactly when it
/// lies between the cell's two edges.
proof fn lemma_cell_of(d: int, scale: int, cell: int)
    requires
        scale > 0,
    ensures
        d / scale == cell <==> cell * scale <= d < cell * scale + scale,
{
    lemma_fundamental_div_mod(d, scale);
    assert(scale * (d / scale) == (d / scale) * scale) by (nonlinear_arith);
    if cell * scale <= d < cell * scale + scale {
        lemma_fundamental_div_mod_converse(d, scale, cell, d - cell * scale);
    }
}

/// Writes `color` to the pixel `(px, py)` if the buffer has such a pixel, and
/// does nothing otherwise.
fn plot(buffer: &mut [u32], width: u32, px: i128, py: i128, color: u32)
    ensures
        final(buffer)@.len() == old(buffer)@.len(),
        forall|i: int|
            0 <= i < old(buffer)@.len() ==> #[trigger] final(buffer)@[i] == (if width > 0
                && column_of(i, width as int) == px && row_of(i, width as int) == py {
                color
            } else {
                old(buffer)@[i]
            }),
{
    let ghost before = buffer@;
    if px >= 0 && py >= 0 && px < width as i128 {
        let w: usize = width as usize;
        let len: usize = buffer.len();
        let rows: usize = len / w;
        let rest: usize = len % w;
        proof {
            lemma_fundamental_div_mod(len as int, w as int);
        }
        if py < rows as i128 || (py == rows as i128 && px < rest as i128) {
            assert(py * w + px < len) by (nonlinear_arith)
                requires
                    0 <= px < w,
                    0 <= py,
                    len == w * rows + rest,
                    py < rows || (py == rows && px < rest),
            ;
            assert(0 <= py * w) by (nonlinear_arith)
                requires
                    0 <= py,
                    0 <= w,
            ;
            let idx: usize = (py as usize) * w + (px as usize);
            buffer[idx] = color;
            assert forall|i: int| 0 <= i < before.len() implies #[trigger] buffer@[i] == (if width
                > 0 && column_of(i, width as int) == px && row_of(i, width as int) == py {
                color
            } else {
                before[i]
            }) by {
                lemma_pixel_index(width as int, px as int, py as int, i);
            }
        } else {
            assert forall|i: int| 0 <= i < before.len() implies !(column_of(i, width as int) == px
                && row_of(i, width as int) == py) by {
                lemma_pixel_index(width as int, px as int, py as int, i);
                assert(py * w + px >= len) by (nonlinear_arith)
                    requires
                        0 <= px < w,
                        0 <= py,
                        len == w * rows + rest,
                        0 <= rest < w,
                        !(py < rows || (py == rows && px < rest)),
                ;
            }
        }
    } else {
        assert forall|i: int| 0 <= i < before.len() && width > 0 implies !(column_of(
            i,
            width as int,
        ) == px && row_of(i, width as int) == py) by {
            lemma_fundamental_div_mod(i, width as int);
            assert(0 <= i / (width as int)) by (nonlinear_arith)
                requires
                    0 <= i,
                    width > 0,
            ;
        }
    }
}

/// Whether the pixel `(px, py)` falls into the cell `(row, col)` of a glyph
/// drawn at `(x, y)` with `scale` pixels to a cell.
spec fn in_cell(x: int, y: int, scale: int, row: int, col: int, px: int, py: int) -> bool {
    &&& scale > 0
    &&& (px - x) / scale == col
    &&& (py - y) / scale == row
}

/// Paints the square of pixels that stands for the cell `(row, col)` of a
/// glyph drawn at `(x, y)`, as far as it lies in the buffer.
fn fill_cell(
    buffer: &mut [u32],
    width: u32,
    x: i64,
    y: i64,
    scale: i32,
    row: usize,
    col: usize,
    color: u32,
)
    requires
        row < 8,
        col < 5,
    ensures
        final(buffer)@.len() == old(buffer)@.len(),
        forall|i: int|
            0 <= i < old(buffer)@.len() ==> #[trigger] final(buffer)@[i] == (if width > 0
                && in_cell(
                x as int,
                y as int,
                scale as int,
                row as int,
                col as int,
                column_of(i, width as int),
                row_of(i, width as int),
            ) {
                color
            } else {
                old(buffer)@[i]
            }),
{
    let ghost before = buffer@;
    if scale <= 0 {
        return ;
    }
    assert(0 <= col * scale <= 4 * scale && 0 <= row * scale <= 7 * scale) by (nonlinear_arith)
        requires
            0 <= col <= 4,
            0 <= row <= 7,
            0 < scale,
    ;
    let left: i128 = x as i128 + (col as i128) * (scale as i128);
    let top: i128 = y as i128 + (row as i128) * (scale as i128);
    let mut dy: i32 = 0;
    while dy < scale
        invariant
            0 <= dy <= scale,
            left == x + col * scale,
            top == y + row * scale,
            x <= left <= x + 4 * scale,
            y <= top <= y + 7 * scale,
            buffer@.len() == before.len(),
            forall|i: int|
                0 <= i < before.len() ==> #[trigger] buffer@[i] == (if width > 0 && left
                    <= column_of(i, width as int) < left + scale && top <= row_of(i, width as int)
                    < top + dy {
                    color
                } else {
                    before[i]
                }),
        decreases scale - dy,
    {
        let mut dx: i32 = 0;
        while dx < scale
            invariant
                0 <= dx <= scale,
                0 <= dy < scale,
                left == x + col * scale,
                top == y + row * scale,
                x <= left <= x + 4 * scale,
                y <= top <= y + 7 * scale,
                buffer@.len() == before.len(),
                forall|i: int|
                    0 <= i < before.len() ==> #[trigger] buffer@[i] == (if width > 0 && left
                        <= column_of(i, width as int) < left + scale && (top <= row_of(
                        i,
                        width as int,
                    ) < top + dy || (row_of(i, width as int) == top + dy && column_of(
                        i,
                        width as int,
                    ) < left + dx)) {
                        color
                    } else {
                        before[i]
                    }),
            decreases scale - dx,
        {
            plot(buffer, width, left + dx as i128, top + dy as i128, color);
            dx += 1;
        }
        dy += 1;
    }
    assert forall|i: int| 0 <= i < before.len() implies #[trigger] buffer@[i] == (if width > 0
        && in_cell(
        x as int,
        y as int,
        scale as int,
        row as int,
        col as int,
        column_of(i, width as int),
        row_of(i, width as int),
    ) {
        color
    } else {
        before[i]
    }) by {
        if width > 0 {
            lemma_cell_of(column_of(i, width as int) - x, scale as int, col as int);
            lemma_cell_of(row_of(i, width as int) - y, scale as int, row as int);
        }
    }
}

/// Whether `glyph`, drawn at `(x, y)`, inks the pixel `(px, py)` with one of
/// its cells that come before the cell `(row, col)`, row by row.
spec fn glyph_inks_before(
    glyph: Glyph,
    x: int,
    y: int,
    scale: int,
    row: int,
    col: int,
    px: int,
    py: int,
) -> bool {
    &&& glyph_inks(glyph, x, y, scale, px, py)
    &&& ((py - y) / scale < row || ((py - y) / scale == row && (px - x) / scale < col))
}

/// Draws one glyph in white with its top-left corner at `(x, y)`, each inked
/// cell as a square of `scale` by `scale` pixels. Pixels that fall outside
/// the buffer are left out; nothing else in the buffer changes.
pub fn draw_char(
    buffer: &mut [u32],
    x: i64,
    y: i64,
    char_data: &[[bool; 5]; 8],
    buffer_width: u32,
    scale: i32,
)
    ensures
        final(buffer)@.len() == old(buffer)@.len(),
        forall|i: int|
            0 <= i < old(buffer)@.len() ==> #[trigger] final(buffer)@[i] == (if buffer_width > 0
                && glyph_inks(
                *char_data,
                x as int,
                y as int,
                scale as int,
                column_of(i, buffer_width as int),
                row_of(i, buffer_width as int),
            ) {
                WHITE
            } else {
                old(buffer)@[i]
            }),
{
    let ghost before = buffer@;
    let mut row: usize = 0;
    while row < 8
        invariant
            row <= 8,
            buffer@.len() == before.len(),
            forall|i: int|
                0 <= i < before.len() ==> #[trigger] buffer@[i] == (if buffer_width > 0
                    && glyph_inks_before(
                    *char_data,
                    x as int,
                    y as int,
                    scale as int,
                    row as int,
                    0,
                    column_of(i, buffer_width as int),
                    row_of(i, buffer_width as int),
                ) {
                    WHITE
                } else {
                    before[i]
                }),
        decreases 8 - row,
    {
        let mut col: usize = 0;
        while col < 5
            invariant
                row < 8,
                col <= 5,
                buffer@.len() == before.len(),
                forall|i: int|
                    0 <= i < before.len() ==> #[trigger] buffer@[i] == (if buffer_width > 0
                        && glyph_inks_before(
                        *char_data,
                        x as int,
                        y as int,
                        scale as int,
                        row as int,
                        col as int,
                        column_of(i, buffer_width as int),
                        row_of(i, buffer_width as int),
                    ) {
                        WHITE
                    } else {
                        before[i]
                    }),
            decreases 5 - col,
        {
            if char_data[row][col] {
                fill_cell(buffer, buffer_width, x, y, scale, row, col, WHITE);
            }
            col += 1;
        }
        row += 1;
    }
}

/// Whether the text inks the pixel `(px, py)` with one of its first `count`
/// glyphs.
spec fn text_inks_before(
    glyphs: Seq<Glyph>,
    x: int,
    y: int,
    count: int,
    px: int,
    py: int,
) -> bool {
    text_inks(glyphs, x, y, px, py) && (px - x) / (ADVANCE as int) < count
}

/// Draws `glyphs` in white from left to right, the first with its top-left
/// corner at `(x, y)` and each next one `ADVANCE` pixels further to the
/// right, at `SCALE` pixels to a cell. The start may lie anywhere, also far
/// outside the buffer: pixels that fall outside are left out, and nothing
/// else in the buffer changes.
pub fn draw_text(buffer: &mut [u32], x: i64, y: i64, buffer_width: u32, glyphs: &[Glyph])
    ensures
        final(buffer)@.len() == old(buffer)@.len(),
        forall|i: int|
            0 <= i < old(buffer)@.len() ==> #[trigger] final(buffer)@[i] == (if buffer_width > 0
                && text_inks(
                glyphs@,
                x as int,
                y as int,
                column_of(i, buffer_width as int),
                row_of(i, buffer_width as int),
            ) {
                WHITE
            } else {
                old(buffer)@[i]
            }),
{
    let ghost before = buffer@;
    let mut count: usize = 0;
    let mut pen: i64 = x;
    // A glyph that starts to the right of the buffer cannot show in it, nor
    // can any glyph after it.
    while count < glyphs.len() && pen < buffer_width as i64
        invariant
            count <= glyphs@.len(),
            ADVANCE == 6 * SCALE == 18,
            pen == x + count * ADVANCE,
            buffer@.len() == before.len(),
            forall|i: int|
                0 <= i < before.len() ==> #[trigger] buffer@[i] == (if buffer_width > 0
                    && text_inks_before(
                    glyphs@,
                    x as int,
                    y as int,
                    count as int,
                    column_of(i, buffer_width as int),
                    row_of(i, buffer_width as int),
                ) {
                    WHITE
                } else {
                    before[i]
                }),
        decreases glyphs@.len() - count,
    {
        draw_char(buffer, pen, y, &glyphs[count], buffer_width, SCALE);
        pen += ADVANCE as i64;
        count += 1;
    }
    assert forall|i: int| 0 <= i < before.len() implies #[trigger] buffer@[i] == (if buffer_width
        > 0 && text_inks(
        glyphs@,
        x as int,
        y as int,
        column_of(i, buffer_width as int),
        row_of(i, buffer_width as int),
    ) {
        WHITE
    } else {
        before[i]
    }) by {
        if buffer_width > 0 {
            lemma_fundamental_div_mod(i, buffer_width as int);
            vstd::arithmetic::div_mod::lemma_mod_bound(i, buffer_width as int);
        }
    }
}

/// Whether the block of a text of `count` glyphs that starts at `(x, y)`
/// lies wholly above, below, left or right of a window of `size`.
pub open spec fn text_out_of_sight(size: Size, count: int, x: int, y: int) -> bool {
    ||| y + 8 * SCALE <= 0
    ||| y >= size.height
    ||| x + count * ADVANCE <= 0
    ||| x >= size.width
}

/// A text whose block lies wholly outside a window inks none of the window's
/// pixels.
pub proof fn lemma_text_outside_inks_nothing(
    size: Size,
    glyphs: Seq<Glyph>,
    x: int,
    y: int,
    px: int,
    py: int,
)
    requires
        0 <= px < size.width,
        0 <= py < size.height,
        text_out_of_sight(size, glyphs.len() as int, x, y),
    ensures
        !text_inks(glyphs, x, y, px, py),
{
    assert(ADVANCE == 6 * SCALE == 18);
}

} // verus!
