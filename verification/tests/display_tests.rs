use pixel_games::display::{BufferDisplay, Pixel, PixelDisplay, RotatedDisplay};
use pixel_games::font_monospace;

#[test]
fn char_width_is_five() {
    assert_eq!(font_monospace::char_width(), 5);
}

#[test]
fn glyph_rows_for_known_characters() {
    let one = font_monospace::get_bytes_for_char(0x31);
    assert_eq!(one, vec![0x00, 0x06, 0x04, 0x04, 0x04, 0x04, 0x0E, 0x00, 0x00]);

    let upper_a = font_monospace::get_bytes_for_char(0x41);
    assert_eq!(
        upper_a,
        vec![0x00, 0x0C, 0x0C, 0x0C, 0x0C, 0x1E, 0x12, 0x00, 0x00]
    );

    let space = font_monospace::get_bytes_for_char(0x20);
    assert_eq!(space, vec![0x00; 9]);
}

#[test]
fn buffer_display_set_and_get() {
    let mut d = BufferDisplay::new(4, 6);
    assert_eq!(d.rows(), 4);
    assert_eq!(d.columns(), 6);
    assert_eq!(d.get_pixel(2, 3), Pixel::Off);

    d.set_pixel(2, 3, Pixel::On);
    assert_eq!(d.get_pixel(2, 3), Pixel::On);
    assert_eq!(d.get_pixel(3, 2), Pixel::Off);

    d.set_pixel(2, 3, Pixel::Off);
    assert_eq!(d.get_pixel(2, 3), Pixel::Off);
}

#[test]
fn fill_and_clear_cover_the_grid() {
    let mut d = BufferDisplay::new(3, 3);
    d.fill(Pixel::On);
    for r in 0..3 {
        for c in 0..3 {
            assert_eq!(d.get_pixel(r, c), Pixel::On);
        }
    }
    d.clear();
    for r in 0..3 {
        for c in 0..3 {
            assert_eq!(d.get_pixel(r, c), Pixel::Off);
        }
    }
}

#[test]
fn draw_text_renders_glyph_bits() {
    let mut d = BufferDisplay::new(12, 10);
    d.draw_text(0, 0, "A");
    // 'A' row 1 is 0x0C: bits 2 and 3 set
    assert_eq!(d.get_pixel(1, 2), Pixel::On);
    assert_eq!(d.get_pixel(1, 3), Pixel::On);
    assert_eq!(d.get_pixel(1, 1), Pixel::Off);
    // 'A' row 5 is 0x1E: bits 1 through 4 set
    assert_eq!(d.get_pixel(5, 1), Pixel::On);
    assert_eq!(d.get_pixel(5, 4), Pixel::On);
    assert_eq!(d.get_pixel(0, 0), Pixel::Off);
}

#[test]
fn draw_text_clips_outside_the_grid() {
    let mut d = BufferDisplay::new(4, 4);
    // most of the glyph falls outside; nothing panics, the rest is clipped
    d.draw_text(-5, -3, "A");
    d.draw_text(2, 2, "AA");
    assert_eq!(d.rows(), 4);
    assert_eq!(d.columns(), 4);
}

#[test]
fn draw_number_renders_digits() {
    let mut d = BufferDisplay::new(12, 20);
    d.draw_number(0, 0, 12);
    // '1' at column 0: row 1 is 0x06, bits 1 and 2
    assert_eq!(d.get_pixel(1, 1), Pixel::On);
    assert_eq!(d.get_pixel(1, 2), Pixel::On);
    // '2' at column 5: row 1 is 0x0E, bits 1 through 3
    assert_eq!(d.get_pixel(1, 6), Pixel::On);
    assert_eq!(d.get_pixel(1, 7), Pixel::On);
    assert_eq!(d.get_pixel(1, 8), Pixel::On);
}

#[test]
fn draw_number_caps_at_one_hundred() {
    // 100 renders "100": '1' row 3 is 0x04, so (3,1) stays off
    let mut d = BufferDisplay::new(12, 25);
    d.draw_number(0, 0, 100);
    assert_eq!(d.get_pixel(3, 1), Pixel::Off);
    assert_eq!(d.get_pixel(3, 2), Pixel::On);

    // anything larger renders ">100": '>' row 3 is 0x02, so (3,1) is on
    let mut e = BufferDisplay::new(12, 25);
    e.draw_number(0, 0, 101);
    assert_eq!(e.get_pixel(3, 1), Pixel::On);

    let mut f = BufferDisplay::new(12, 25);
    f.draw_number(0, 0, 7000);
    assert_eq!(f.get_pixel(3, 1), Pixel::On);
}

#[test]
fn rotated_display_swaps_extent_and_maps_pixels() {
    let inner = BufferDisplay::new(4, 6);
    let mut rd = RotatedDisplay::new(inner);
    assert_eq!(rd.rows(), 6);
    assert_eq!(rd.columns(), 4);

    // (row, col) on the rotated face lands on (inner_rows - col - 1, row)
    rd.set_pixel(1, 2, Pixel::On);
    assert_eq!(rd.inner().get_pixel(1, 1), Pixel::On);

    rd.set_pixel(0, 0, Pixel::On);
    assert_eq!(rd.inner().get_pixel(3, 0), Pixel::On);

    rd.inner_mut().set_pixel(0, 5, Pixel::On);
    assert_eq!(rd.inner().get_pixel(0, 5), Pixel::On);
}
