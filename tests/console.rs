use kernel_core::framebuffer::{init, pack_pixel, Color, FramebufferWriter, FONT_BYTES};

const WIDTH: usize = 32;
const HEIGHT: usize = 48;
const PITCH: usize = 128;

/// Every row of glyph `c` is the byte `c`, so each glyph draws differently.
fn test_font() -> Vec<u8> {
    (0..FONT_BYTES).map(|i| (i / 16) as u8).collect()
}

fn console() -> FramebufferWriter {
    FramebufferWriter::new(vec![0xAB; HEIGHT * PITCH], WIDTH, HEIGHT, PITCH, 32, 16, 8, 0, test_font())
}

fn text_row(w: &FramebufferWriter, r: usize) -> Vec<u8> {
    w.buffer()[r * 16 * PITCH..(r + 1) * 16 * PITCH].to_vec()
}

#[test]
fn new_clears_and_sizes_grid() {
    let w = console();
    assert_eq!(w.max_cols(), 4);
    assert_eq!(w.max_rows(), 3);
    assert_eq!(w.width(), WIDTH);
    assert_eq!(w.height(), HEIGHT);
    assert_eq!(w.cursor(), (0, 0));
    assert!(w.buffer().iter().all(|&b| b == 0));
}

#[test]
fn init_rejects_unusable_geometry() {
    assert!(init(vec![0; 10], WIDTH, HEIGHT, PITCH, 32, 16, 8, 0, test_font()).is_none());
    assert!(init(vec![0; 4 * 7], 4, 7, 4, 32, 16, 8, 0, test_font()).is_none());
    assert!(init(vec![0; HEIGHT * PITCH], WIDTH, HEIGHT, PITCH, 32, 40, 8, 0, test_font()).is_none());
    assert!(init(vec![0; HEIGHT * PITCH], WIDTH, HEIGHT, PITCH, 32, 16, 8, 0, vec![0; 5]).is_none());
    let w = init(vec![0; HEIGHT * PITCH], WIDTH, HEIGHT, PITCH, 32, 16, 8, 0, test_font()).unwrap();
    assert_eq!(w.max_cols(), 4);
}

#[test]
fn short_write_leaves_cursor_after_text() {
    let mut w = console();
    w.write_str("ab");
    assert_eq!(w.cursor(), (2, 0));
}

#[test]
fn full_row_wraps_only_on_next_write() {
    let mut w = console();
    w.write_str("abcd");
    assert_eq!(w.cursor(), (4, 0));
    w.write_byte(b'e');
    assert_eq!(w.cursor(), (1, 1));
}

#[test]
fn newline_resets_column_and_advances() {
    let mut w = console();
    w.write_str("ab\n");
    assert_eq!(w.cursor(), (0, 1));
    w.write_str("c\n");
    assert_eq!(w.cursor(), (0, 2));
    w.write_str("d\n");
    assert_eq!(w.cursor(), (0, 2));
}

#[test]
fn glyph_pixels_use_fg_and_bg() {
    let mut w = console();
    // Glyph 0x81 masks to 0x01: every row is 0b0000_0001, only the rightmost pixel set.
    w.write_byte(0x81);
    let fg = pack_pixel(Color::new(0xCC, 0xCC, 0xCC), 16, 8, 0).to_le_bytes();
    let buf = w.buffer();
    for dy in 0..16 {
        for dx in 0..8 {
            let off = dy * PITCH + dx * 4;
            let expected = if dx == 7 { fg } else { [0, 0, 0, 0] };
            assert_eq!(&buf[off..off + 4], &expected[..]);
        }
    }
    assert_eq!(fg, [0xCC, 0xCC, 0xCC, 0]);
}

#[test]
fn scroll_drops_top_line() {
    let mut w = console();
    w.write_str("A\nB\nC\n");
    let mut reference = console();
    reference.write_str("B\nC");
    assert_eq!(text_row(&w, 0), text_row(&reference, 0));
    assert_eq!(text_row(&w, 1), text_row(&reference, 1));
    assert!(text_row(&w, 2).iter().all(|&b| b == 0));
    assert_eq!(w.cursor(), (0, 2));
    let mut only_a = console();
    only_a.write_str("A");
    assert_ne!(text_row(&w, 0), text_row(&only_a, 0));
}

#[test]
fn backspace_at_origin_is_noop() {
    let mut w = console();
    w.write_byte(b'x');
    w.backspace();
    assert_eq!(w.cursor(), (0, 0));
    let snapshot = w.buffer().clone();
    w.backspace();
    assert_eq!(w.cursor(), (0, 0));
    assert_eq!(w.buffer(), &snapshot);
}

#[test]
fn backspace_blanks_previous_cell() {
    let mut w = console();
    w.write_str("ab");
    w.backspace();
    assert_eq!(w.cursor(), (1, 0));
    let mut reference = console();
    reference.write_str("a ");
    assert_eq!(w.buffer(), reference.buffer());
}

#[test]
fn backspace_from_column_zero_goes_up() {
    let mut w = console();
    w.write_str("abcd\n");
    w.backspace();
    assert_eq!(w.cursor(), (3, 0));
}

#[test]
fn clear_screen_resets() {
    let mut w = console();
    w.write_str("abc\nde");
    w.clear_screen();
    assert_eq!(w.cursor(), (0, 0));
    assert!(w.buffer().iter().all(|&b| b == 0));
}

#[test]
fn pack_round_trip() {
    let c = Color::new(0x12, 0x34, 0x56);
    for (rs, gs, bs) in [(16u8, 8u8, 0u8), (0, 8, 16), (24, 16, 8)] {
        let p = pack_pixel(c, rs, gs, bs);
        assert_eq!((p >> rs) & 0xff, 0x12);
        assert_eq!((p >> gs) & 0xff, 0x34);
        assert_eq!((p >> bs) & 0xff, 0x56);
    }
    assert_eq!(pack_pixel(c, 16, 8, 0), 0x0012_3456);
}
