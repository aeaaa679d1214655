//! Painting one frame: the background, the monitor's edge zone as far as the
//! window covers it, and the text on top.
//!
//! A frame is painted from nothing each time. It depends on the size of the
//! window, on where the window and the monitor are, and on the message; the
//! previous content of the buffer plays no part.

use vstd::prelude::*;
use crate::font::Glyph;
use crate::geometry::{
    in_boundary_zone, near_bottom, near_left, near_right, near_top, origin_of,
    window_within_zone, Placement, Position, Size, BOUNDARY_SIZE,
};
use crate::glyph::{message_glyphs, text_glyphs};
use crate::raster::{
    column_of, draw_text, lemma_pixel_index, lemma_text_outside_inks_nothing, row_of, text_inks,
    text_out_of_sight, BLACK, GREEN, WHITE,
};

verus! {

/// Whether `color` is one of the three colours that a frame is made of.
pub open spec fn is_palette(color: u32) -> bool {
    color == BLACK || color == GREEN || color == WHITE
}

/// The colour of the window-local pixel `(px, py)` of a frame: white where
/// the text inks it, else green where the pixel lies in the monitor's edge
/// zone, else black.
pub open spec fn frame_pixel(
    position: Position,
    monitor: Size,
    glyphs: Seq<Glyph>,
    placement: Placement,
    px: int,
    py: int,
) -> u32 {
    let origin = origin_of(placement, monitor, position);
    if text_inks(glyphs, origin.0, origin.1, px, py) {
        WHITE
    } else if in_boundary_zone(position.x + px, position.y + py, monitor) {
        GREEN
    } else {
        BLACK
    }
}

/// Paints every pixel black.
pub fn fill_background(buffer: &mut [u32])
    ensures
        final(buffer)@.len() == old(buffer)@.len(),
        forall|i: int| 0 <= i < old(buffer)@.len() ==> #[trigger] final(buffer)@[i] == BLACK,
{
    let mut i: usize = 0;
    while i < buffer.len()
        invariant
            buffer@.len() == old(buffer)@.len(),
            i <= buffer@.len(),
            forall|j: int| 0 <= j < i ==> #[trigger] buffer@[j] == BLACK,
        decreases buffer@.len() - i,
    {
        buffer[i] = BLACK;
        i += 1;
    }
}

/// Paints green every pixel of the window that lies in the monitor's edge
/// zone, and leaves the others as they are.
pub fn paint_boundary(buffer: &mut [u32], size: Size, position: Position, monitor: Size)
    requires
        old(buffer)@.len() == size.area(),
    ensures
        final(buffer)@.len() == old(buffer)@.len(),
        forall|i: int|
            0 <= i < old(buffer)@.len() ==> #[trigger] final(buffer)@[i] == (if in_boundary_zone(
                position.x + column_of(i, size.width as int),
                position.y + row_of(i, size.width as int),
                monitor,
            ) {
                GREEN
            } else {
                old(buffer)@[i]
            }),
{
    let ghost before = buffer@;
    let mut idx: usize = 0;
    let mut y: u32 = 0;
    while y < size.height
        invariant
            y <= size.height,
            idx == y * size.width,
            idx <= before.len(),
            buffer@.len() == before.len(),
            before.len() == size.area(),
            forall|i: int|
                0 <= i < idx ==> #[trigger] buffer@[i] == (if in_boundary_zone(
                    position.x + column_of(i, size.width as int),
                    position.y + row_of(i, size.width as int),
                    monitor,
                ) {
                    GREEN
                } else {
                    before[i]
                }),
            forall|i: int| idx <= i < before.len() ==> #[trigger] buffer@[i] == before[i],
        decreases size.height - y,
    {
        let mut x: u32 = 0;
        while x < size.width
            invariant
                y < size.height,
                x <= size.width,
                idx == y * size.width + x,
                idx <= before.len(),
                buffer@.len() == before.len(),
                before.len() == size.area(),
                forall|i: int|
                    0 <= i < idx ==> #[trigger] buffer@[i] == (if in_boundary_zone(
                        position.x + column_of(i, size.width as int),
                        position.y + row_of(i, size.width as int),
                        monitor,
                    ) {
                        GREEN
                    } else {
                        before[i]
                    }),
                forall|i: int| idx <= i < before.len() ==> #[trigger] buffer@[i] == before[i],
            decreases size.width - x,
        {
            proof {
                lemma_row_major_index(size, x as int, y as int);
                lemma_pixel_index(size.width as int, x as int, y as int, idx as int);
            }
            if position.to_world(x, y).is_in_boundary_zone(monitor) {
                buffer[idx] = GREEN;
            }
            idx += 1;
            x += 1;
        }
        assert(y * size.width + size.width == (y + 1) * size.width) by (nonlinear_arith);
        y += 1;
    }
    assert(size.height * size.width == size.width * size.height) by (nonlinear_arith);
}

/// The pixel `(x, y)` of a window has its place in a buffer of the window's
/// size.
pub proof fn lemma_row_major_index(size: Size, x: int, y: int)
    requires
        0 <= x < size.width,
        0 <= y < size.height,
    ensures
        0 <= y * size.width + x < size.area(),
{
    assert(0 <= y * size.width && (y + 1) * size.width <= size.height * size.width
        && size.width * size.height == size.height * size.width && (y + 1) * size.width == y
        * size.width + size.width) by (nonlinear_arith)
        requires
            0 <= y < size.height,
            0 <= size.width,
    ;
}

/// Paints a whole frame into `buffer`, which holds the window's pixels row by
/// row: black background, green where the window covers the monitor's edge
/// zone, and on top `glyphs` in white, starting where `placement` puts them.
/// Every pixel is written, whatever the buffer held before.
pub fn render_glyphs(
    buffer: &mut [u32],
    window_size: Size,
    window_position: Position,
    monitor_size: Size,
    glyphs: &[Glyph],
    placement: Placement,
)
    requires
        old(buffer)@.len() == window_size.area(),
    ensures
        final(buffer)@.len() == old(buffer)@.len(),
        forall|i: int|
            0 <= i < old(buffer)@.len() ==> #[trigger] final(buffer)@[i] == frame_pixel(
                window_position,
                monitor_size,
                glyphs@,
                placement,
                column_of(i, window_size.width as int),
                row_of(i, window_size.width as int),
            ),
        forall|i: int| 0 <= i < old(buffer)@.len() ==> is_palette(#[trigger] final(buffer)@[i]),
{
    fill_background(buffer);
    paint_boundary(buffer, window_size, window_position, monitor_size);
    let origin = placement.origin(monitor_size, window_position);
    // A window without width has no pixels.
    assert(window_size.width == 0 ==> window_size.area() == 0) by (nonlinear_arith)
        requires
            window_size.area() == window_size.width * window_size.height,
    ;
    draw_text(buffer, origin.x, origin.y, window_size.width, glyphs);
}

/// Paints a whole frame with the text of `message`: as [`render_glyphs`] with
/// the glyphs of the message's supported bytes. A byte that has no glyph is
/// passed over in silence and takes no room: the next glyph follows the
/// previous one directly.
pub fn render(
    buffer: &mut [u32],
    window_size: Size,
    window_position: Position,
    monitor_size: Size,
    message: &[u8],
    placement: Placement,
)
    requires
        old(buffer)@.len() == window_size.area(),
    ensures
        final(buffer)@.len() == old(buffer)@.len(),
        forall|i: int|
            0 <= i < old(buffer)@.len() ==> #[trigger] final(buffer)@[i] == frame_pixel(
                window_position,
                monitor_size,
                text_glyphs(message@),
                placement,
                column_of(i, window_size.width as int),
                row_of(i, window_size.width as int),
            ),
        forall|i: int| 0 <= i < old(buffer)@.len() ==> is_palette(#[trigger] final(buffer)@[i]),
{
    let glyphs = message_glyphs(message);
    render_glyphs(
        buffer,
        window_size,
        window_position,
        monitor_size,
        glyphs.as_slice(),
        placement,
    );
}

/// In a window that lies in the interior of the monitor, away from all four
/// edges by `BOUNDARY_SIZE` or more, no pixel of the frame is green.
pub proof fn lemma_interior_frame_has_no_green(
    window_size: Size,
    window_position: Position,
    monitor_size: Size,
    glyphs: Seq<Glyph>,
    placement: Placement,
    px: int,
    py: int,
)
    requires
        0 <= px < window_size.width,
        0 <= py < window_size.height,
        BOUNDARY_SIZE <= window_position.x,
        window_position.x + window_size.width <= monitor_size.width - BOUNDARY_SIZE,
        BOUNDARY_SIZE <= window_position.y,
        window_position.y + window_size.height <= monitor_size.height - BOUNDARY_SIZE,
    ensures
        frame_pixel(window_position, monitor_size, glyphs, placement, px, py) != GREEN,
{
}

/// In a window whose whole extent lies within `BOUNDARY_SIZE` of one edge of
/// the monitor, every pixel of the frame that the text does not ink is green.
pub proof fn lemma_edge_frame_is_green(
    window_size: Size,
    window_position: Position,
    monitor_size: Size,
    glyphs: Seq<Glyph>,
    placement: Placement,
    px: int,
    py: int,
)
    requires
        0 <= px < window_size.width,
        0 <= py < window_size.height,
        window_within_zone(window_size, window_position, monitor_size),
    ensures
        frame_pixel(window_position, monitor_size, glyphs, placement, px, py) == (if text_inks(
            glyphs,
            origin_of(placement, monitor_size, window_position).0,
            origin_of(placement, monitor_size, window_position).1,
            px,
            py,
        ) {
            WHITE
        } else {
            GREEN
        }),
{
}

/// A pixel near two edges of the monitor at once, in a corner, has the one
/// colour of the edge zone like a pixel near one edge: the conditions do not
/// add up to another colour.
pub proof fn lemma_corner_pixel_is_green(
    window_position: Position,
    monitor_size: Size,
    glyphs: Seq<Glyph>,
    placement: Placement,
    px: int,
    py: int,
)
    requires
        near_left(window_position.x + px) || near_right(window_position.x + px, monitor_size),
        near_top(window_position.y + py) || near_bottom(window_position.y + py, monitor_size),
        !text_inks(
            glyphs,
            origin_of(placement, monitor_size, window_position).0,
            origin_of(placement, monitor_size, window_position).1,
            px,
            py,
        ),
    ensures
        frame_pixel(window_position, monitor_size, glyphs, placement, px, py) == GREEN,
{
}

/// A text that starts far outside the window shows nowhere in it: where the
/// block of the text lies wholly above, below, left or right of the window,
/// the frame is the frame without text.
pub proof fn lemma_text_out_of_sight(
    window_size: Size,
    window_position: Position,
    monitor_size: Size,
    glyphs: Seq<Glyph>,
    placement: Placement,
    px: int,
    py: int,
)
    requires
        0 <= px < window_size.width,
        0 <= py < window_size.height,
        text_out_of_sight(
            window_size,
            glyphs.len() as int,
            origin_of(placement, monitor_size, window_position).0,
            origin_of(placement, monitor_size, window_position).1,
        ),
    ensures
        frame_pixel(window_position, monitor_size, glyphs, placement, px, py) == frame_pixel(
            window_position,
            monitor_size,
            Seq::<Glyph>::empty(),
            placement,
            px,
            py,
        ),
{
    let origin = origin_of(placement, monitor_size, window_position);
    lemma_text_outside_inks_nothing(window_size, glyphs, origin.0, origin.1, px, py);
}

} // verus!
