use boundary_window::font::Glyph;
use boundary_window::glyph::{lookup, message_glyphs};
use boundary_window::raster::{draw_char, draw_text, ADVANCE, BLACK, GREEN, SCALE, WHITE};

const BLANK: u32 = 0x1234_5678;

fn canvas(width: u32, height: u32) -> Vec<u32> {
    vec![BLANK; (width * height) as usize]
}

/// The buffer as lines of text: `#` for white, `.` for what was not touched.
fn picture(buffer: &[u32], width: u32) -> Vec<String> {
    buffer
        .chunks(width as usize)
        .map(|row| {
            row.iter()
                .map(|p| match *p {
                    WHITE => '#',
                    BLANK => '.',
                    _ => '?',
                })
                .collect()
        })
        .collect()
}

/// What `draw_char` is to do, pixel by pixel and without any shortcut.
fn stamp(buffer: &mut [u32], width: u32, x: i64, y: i64, glyph: &Glyph, scale: i64) {
    for (row, line) in glyph.iter().enumerate() {
        for (col, cell) in line.iter().enumerate() {
            if !*cell {
                continue;
            }
            for dy in 0..scale {
                for dx in 0..scale {
                    let px: i64 = x + col as i64 * scale + dx;
                    let py: i64 = y + row as i64 * scale + dy;
                    if px >= 0 && py >= 0 && px < width as i64 {
                        let idx: i64 = py * width as i64 + px;
                        if idx < buffer.len() as i64 {
                            buffer[idx as usize] = WHITE;
                        }
                    }
                }
            }
        }
    }
}

#[test]
fn the_palette_is_opaque_black_green_and_white() {
    assert_eq!(BLACK, 0xFF00_0000);
    assert_eq!(GREEN, 0xFF00_FF00);
    assert_eq!(WHITE, 0xFFFF_FFFF);
    assert_eq!(SCALE, 3);
    assert_eq!(ADVANCE, 18);
}

#[test]
fn a_glyph_at_scale_one_is_its_own_picture() {
    let mut buffer = canvas(5, 8);
    draw_char(&mut buffer, 0, 0, &lookup('H').unwrap(), 5, 1);
    assert_eq!(
        picture(&buffer, 5),
        vec!["#...#", "#...#", "#...#", "#####", "#...#", "#...#", "#...#", "....."]
    );
}

#[test]
fn a_glyph_is_drawn_where_it_is_put() {
    let mut buffer = canvas(8, 10);
    draw_char(&mut buffer, 2, 1, &lookup('i').unwrap(), 8, 1);
    assert_eq!(
        picture(&buffer, 8),
        vec![
            "........",
            "....#...",
            "........",
            "...##...",
            "....#...",
            "....#...",
            "....#...",
            "...###..",
            "........",
            "........",
        ]
    );
}

#[test]
fn each_cell_becomes_a_square_of_scale_by_scale() {
    let mut buffer = canvas(12, 17);
    draw_char(&mut buffer, 1, 1, &lookup('L').unwrap(), 12, 2);
    assert_eq!(
        picture(&buffer, 12),
        vec![
            "............",
            ".##.........",
            ".##.........",
            ".##.........",
            ".##.........",
            ".##.........",
            ".##.........",
            ".##.........",
            ".##.........",
            ".##.........",
            ".##.........",
            ".##.........",
            ".##.........",
            ".##########.",
            ".##########.",
            "............",
            "............",
        ]
    );
}

#[test]
fn what_falls_outside_is_dropped_and_does_not_wrap() {
    // Cut at the right edge: nothing appears at the start of the next row.
    let mut buffer = canvas(6, 8);
    draw_char(&mut buffer, 3, 0, &lookup('H').unwrap(), 6, 1);
    assert_eq!(
        picture(&buffer, 6),
        vec!["...#..", "...#..", "...#..", "...###", "...#..", "...#..", "...#..", "......"]
    );
    // Cut at the left and top edges.
    let mut buffer = canvas(6, 4);
    draw_char(&mut buffer, -3, -2, &lookup('H').unwrap(), 6, 1);
    assert_eq!(picture(&buffer, 6), vec![".#....", "##....", ".#....", ".#...."]);
    // Cut at the bottom edge.
    let mut buffer = canvas(5, 3);
    draw_char(&mut buffer, 0, 1, &lookup('T').unwrap(), 5, 1);
    assert_eq!(picture(&buffer, 5), vec![".....", "#####", "..#.."]);
}

#[test]
fn draw_char_agrees_with_the_plain_procedure_everywhere() {
    let glyphs: Vec<Glyph> = message_glyphs(b"AgQ{_ y");
    let mut checked: u32 = 0;
    for (n, glyph) in glyphs.iter().enumerate() {
        for scale in [1i32, 2, 3, 4] {
            for x in [-40i64, -13, -5, -1, 0, 1, 7, 18, 19, 25] {
                for y in [-50i64, -24, -9, -1, 0, 2, 11, 15, 30] {
                    let width: u32 = 20;
                    let mut got = canvas(width, 16);
                    let mut want = got.clone();
                    draw_char(&mut got, x, y, glyph, width, scale);
                    stamp(&mut want, width, x, y, glyph, scale as i64);
                    assert_eq!(got, want, "glyph {} scale {} at ({}, {})", n, scale, x, y);
                    checked += 1;
                }
            }
        }
    }
    assert_eq!(checked, 7 * 4 * 10 * 9);
}

#[test]
fn nothing_is_drawn_at_a_scale_of_zero_or_less() {
    for scale in [0i32, -1, -3, i32::MIN] {
        let mut buffer = canvas(20, 30);
        draw_char(&mut buffer, 2, 2, &lookup('H').unwrap(), 20, scale);
        assert_eq!(buffer, canvas(20, 30));
    }
}

#[test]
fn nothing_is_drawn_into_a_buffer_without_width() {
    let mut buffer: Vec<u32> = vec![BLANK; 12];
    draw_char(&mut buffer, 0, 0, &lookup('H').unwrap(), 0, 1);
    assert_eq!(buffer, vec![BLANK; 12]);
    draw_text(&mut buffer, 0, 0, 0, &message_glyphs(b"Hi"));
    assert_eq!(buffer, vec![BLANK; 12]);
    let mut empty: Vec<u32> = Vec::new();
    draw_char(&mut empty, 0, 0, &lookup('H').unwrap(), 5, 1);
    draw_text(&mut empty, 0, 0, 5, &message_glyphs(b"Hi"));
    assert!(empty.is_empty());
}

#[test]
fn a_last_row_that_is_not_full_is_painted_as_far_as_it_goes() {
    // 5 columns, 3 rows and 2 pixels more.
    let mut buffer: Vec<u32> = vec![BLANK; 17];
    draw_char(&mut buffer, 0, 0, &lookup('M').unwrap(), 5, 1);
    assert_eq!(picture(&buffer, 5), vec!["#...#", "##.##", "#.#.#", "#."]);
}

#[test]
fn a_glyph_far_away_changes_nothing() {
    let glyph: Glyph = lookup('H').unwrap();
    let far: [(i64, i64); 10] = [
        (0, -10000),
        (0, 10000),
        (-10000, 0),
        (10000, 0),
        (i64::MAX, 0),
        (i64::MIN, 0),
        (0, i64::MAX),
        (0, i64::MIN),
        (i64::MAX, i64::MAX),
        (i64::MIN, i64::MIN),
    ];
    for (x, y) in far {
        let mut buffer = canvas(40, 30);
        draw_char(&mut buffer, x, y, &glyph, 40, 3);
        assert_eq!(buffer, canvas(40, 30), "at ({}, {})", x, y);
        draw_text(&mut buffer, x, y, 40, &message_glyphs(b"Hi"));
        assert_eq!(buffer, canvas(40, 30), "at ({}, {})", x, y);
    }
}

#[test]
fn a_glyph_just_outside_changes_nothing_and_just_inside_one_corner() {
    let glyph: Glyph = lookup('H').unwrap();
    // H is inked in its top-left cell and its bottom-right inked cell is (6, 4).
    let mut buffer = canvas(10, 10);
    draw_char(&mut buffer, 10, 0, &glyph, 10, 3);
    assert_eq!(buffer, canvas(10, 10));
    draw_char(&mut buffer, 0, 10, &glyph, 10, 3);
    assert_eq!(buffer, canvas(10, 10));
    draw_char(&mut buffer, -15, 0, &glyph, 10, 3);
    assert_eq!(buffer, canvas(10, 10));
    draw_char(&mut buffer, 0, -21, &glyph, 10, 3);
    assert_eq!(buffer, canvas(10, 10));
    draw_char(&mut buffer, 9, 9, &glyph, 10, 3);
    let mut want = canvas(10, 10);
    want[99] = WHITE;
    assert_eq!(buffer, want);
    let mut buffer = canvas(10, 10);
    draw_char(&mut buffer, -14, -20, &glyph, 10, 3);
    let mut want = canvas(10, 10);
    want[0] = WHITE;
    assert_eq!(buffer, want);
}

#[test]
fn draw_char_leaves_every_other_pixel_as_it_was() {
    let mut buffer: Vec<u32> = (0u32..900).collect();
    draw_char(&mut buffer, 3, 2, &lookup('e').unwrap(), 30, 3);
    let mut white: usize = 0;
    for (i, p) in buffer.iter().enumerate() {
        if *p == WHITE {
            white += 1;
        } else {
            assert_eq!(*p, i as u32);
        }
    }
    // `e` has 14 inked cells, each 3 by 3 pixels, and all of them fit.
    assert_eq!(white, 14 * 9);
}

#[test]
fn hi_at_ten_ten_fills_the_documented_columns() {
    let width: u32 = 60;
    let mut buffer = canvas(width, 40);
    draw_text(&mut buffer, 10, 10, width, &message_glyphs(b"Hi"));
    let white_columns: Vec<usize> = (0..width as usize)
        .filter(|x| (0..40usize).any(|y| buffer[y * width as usize + x] == WHITE))
        .collect();
    // H fills the columns 10 to 24; i starts at 28, and its ink at 31, the
    // second of its cells, and ends with its fourth cell at 39.
    let expected: Vec<usize> = (10..25).chain(31..40).collect();
    assert_eq!(white_columns, expected);
    let white_rows: Vec<usize> = (0..40usize)
        .filter(|y| (0..width as usize).any(|x| buffer[y * width as usize + x] == WHITE))
        .collect();
    assert_eq!(white_rows, (10..31).collect::<Vec<usize>>());
    // The dot of the i: cell (0, 2) of the glyph that starts at x = 28.
    for y in 10..13usize {
        for x in 25..40usize {
            assert_eq!(buffer[y * 60 + x] == WHITE, (34..37).contains(&x), "({}, {})", x, y);
        }
    }
    let mut want = canvas(width, 40);
    stamp(&mut want, width, 10, 10, &lookup('H').unwrap(), 3);
    stamp(&mut want, width, 28, 10, &lookup('i').unwrap(), 3);
    assert_eq!(buffer, want);
}

#[test]
fn draw_text_advances_by_eighteen_pixels_for_each_glyph() {
    let text = b"ictf{Teeheehee_you_found_me}";
    let glyphs: Vec<Glyph> = message_glyphs(text);
    for (x, y) in [(0i64, 0i64), (-100, 3), (-490, -5), (37, 20), (199, 0), (-504, 0), (200, 0)] {
        let width: u32 = 200;
        let mut got = canvas(width, 30);
        let mut want = got.clone();
        draw_text(&mut got, x, y, width, &glyphs);
        for (k, glyph) in glyphs.iter().enumerate() {
            stamp(&mut want, width, x + 18 * k as i64, y, glyph, 3);
        }
        assert_eq!(got, want, "at ({}, {})", x, y);
    }
}

#[test]
fn draw_text_of_nothing_changes_nothing() {
    let mut buffer = canvas(30, 30);
    draw_text(&mut buffer, 0, 0, 30, &[]);
    assert_eq!(buffer, canvas(30, 30));
    draw_text(&mut buffer, 0, 0, 30, &message_glyphs(b"   "));
    assert_eq!(buffer, canvas(30, 30));
}

#[test]
fn a_long_text_shows_its_tail_when_it_starts_far_to_the_left() {
    let glyphs: Vec<Glyph> = message_glyphs(b"__________________________________________H");
    assert_eq!(glyphs.len(), 43);
    let mut buffer = canvas(15, 24);
    draw_text(&mut buffer, -42 * 18, 0, 15, &glyphs);
    let mut want = canvas(15, 24);
    stamp(&mut want, 15, 0, 0, &lookup('H').unwrap(), 3);
    assert_eq!(buffer, want);
}
