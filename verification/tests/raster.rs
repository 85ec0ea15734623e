use ascii_cube::params::{BACKGROUND_GLYPH, HEIGHT, WIDTH};
use ascii_cube::raster::Canvas;

#[test]
fn a_fresh_canvas_is_blank() {
    let c = Canvas::new(WIDTH, HEIGHT);
    assert_eq!(c.glyphs.len(), WIDTH * HEIGHT);
    assert_eq!(c.depth.len(), WIDTH * HEIGHT);
    for y in 0..HEIGHT {
        for x in 0..WIDTH {
            assert_eq!(c.glyph_at(x, y), BACKGROUND_GLYPH);
            assert_eq!(c.depth_at(x, y), 0);
        }
    }
}

#[test]
fn clearing_resets_every_cell_and_every_depth() {
    let mut c = Canvas::new(WIDTH, HEIGHT);
    c.plot(10, 5, 999, '#');
    c.plot(0, 0, 123, '~');
    c.clear();
    for y in 0..HEIGHT {
        for x in 0..WIDTH {
            assert_eq!(c.glyph_at(x, y), BACKGROUND_GLYPH);
            assert_eq!(c.depth_at(x, y), 0);
        }
    }
}

#[test]
fn an_in_bounds_write_that_wins_the_depth_test_lands() {
    let mut c = Canvas::new(WIDTH, HEIGHT);
    c.plot(7, 3, 500, '$');
    assert_eq!(c.glyph_at(7, 3), '$');
    assert_eq!(c.depth_at(7, 3), 500);
    // every other cell is untouched
    for y in 0..HEIGHT {
        for x in 0..WIDTH {
            if (x, y) != (7, 3) {
                assert_eq!(c.glyph_at(x, y), BACKGROUND_GLYPH);
                assert_eq!(c.depth_at(x, y), 0);
            }
        }
    }
}

#[test]
fn repeating_an_identical_write_changes_nothing() {
    let mut once = Canvas::new(WIDTH, HEIGHT);
    once.plot(12, 8, 777, ';');
    let mut twice = Canvas::new(WIDTH, HEIGHT);
    twice.plot(12, 8, 777, ';');
    twice.plot(12, 8, 777, ';');
    assert_eq!(once.glyphs, twice.glyphs);
    assert_eq!(once.depth, twice.depth);
}

#[test]
fn the_nearer_write_wins_in_either_order() {
    let mut near_first = Canvas::new(WIDTH, HEIGHT);
    near_first.plot(20, 10, 5000, '#');
    near_first.plot(20, 10, 100, '.');
    let mut far_first = Canvas::new(WIDTH, HEIGHT);
    far_first.plot(20, 10, 100, '.');
    far_first.plot(20, 10, 5000, '#');
    assert_eq!(near_first.glyphs, far_first.glyphs);
    assert_eq!(near_first.depth, far_first.depth);
    assert_eq!(near_first.glyph_at(20, 10), '#');
    assert_eq!(near_first.depth_at(20, 10), 5000);
}

#[test]
fn two_writes_to_one_cell_leave_the_nearer_glyph() {
    // inverse depths 0.01 and 0.05, in ticks of 1 / OOZ_SCALE
    let mut c = Canvas::new(WIDTH, HEIGHT);
    c.plot(33, 9, 10485, '.');
    c.plot(33, 9, 52428, '#');
    assert_eq!(c.glyph_at(33, 9), '#');
    assert_eq!(c.depth_at(33, 9), 52428);
}

#[test]
fn an_out_of_bounds_write_leaves_both_buffers_unchanged() {
    let mut c = Canvas::new(WIDTH, HEIGHT);
    c.plot(3, 4, 900, '~');
    let glyphs_before = c.glyphs.clone();
    let depth_before = c.depth.clone();
    c.plot(-1, 4, 5000, '#');
    c.plot(3, -1, 5000, '#');
    c.plot(WIDTH as i64, 4, 5000, '#');
    c.plot(3, HEIGHT as i64, 5000, '#');
    c.plot(-100, -100, 5000, '#');
    c.plot(i64::MAX, 0, 5000, '#');
    assert_eq!(c.glyphs, glyphs_before);
    assert_eq!(c.depth, depth_before);
}

#[test]
fn a_farther_write_is_discarded() {
    let mut c = Canvas::new(WIDTH, HEIGHT);
    c.plot(5, 5, 300, '+');
    c.plot(5, 5, 299, '.');
    c.plot(5, 5, 300, '.');
    assert_eq!(c.glyph_at(5, 5), '+');
    assert_eq!(c.depth_at(5, 5), 300);
}

#[test]
fn rows_serialize_the_buffer_row_major() {
    let mut c = Canvas::new(WIDTH, HEIGHT);
    c.plot(0, 0, 10, 'a');
    c.plot(59, 0, 10, 'b');
    c.plot(2, 1, 10, 'c');
    let row0 = c.row_chars(0);
    assert_eq!(row0.len(), WIDTH);
    assert_eq!(row0[0], 'a');
    assert_eq!(row0[59], 'b');
    let row1 = c.row_chars(1);
    assert_eq!(row1[2], 'c');
    assert_eq!(row1[0], BACKGROUND_GLYPH);
    let mut rebuilt: Vec<char> = Vec::new();
    for y in 0..HEIGHT {
        rebuilt.extend(c.row_chars(y));
    }
    assert_eq!(rebuilt, c.glyphs);
}
