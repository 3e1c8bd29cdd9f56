use vstd::prelude::*;
use vstd::string::StringSliceAdditionalSpecFns;

verus! {

/// Glyph width in pixels.
pub const FONT_WIDTH: usize = 8;

/// Glyph height in pixels (one byte of the font table per glyph row).
pub const FONT_HEIGHT: usize = 16;

/// Number of glyphs in a font table; bytes are masked to 7 bits to pick one.
pub const FONT_GLYPHS: usize = 128;

/// Size in bytes of a font table: `FONT_HEIGHT` bytes per glyph.
pub const FONT_BYTES: usize = 2048;

/// An 8-bit-per-channel color.
#[derive(Debug, Clone, Copy)]
pub struct Color {
    pub r: u8,
    pub g: u8,
    pub b: u8,
}

impl Color {
    pub fn new(r: u8, g: u8, b: u8) -> (c: Color)
        ensures
            c.r == r,
            c.g == g,
            c.b == b,
    {
        Color { r, g, b }
    }
}

/// The pixel value for `c`: each channel shifted to its bit position.
pub open spec fn pack(c: Color, red_shift: u8, green_shift: u8, blue_shift: u8) -> u32 {
    ((c.r as u32) << red_shift) | ((c.g as u32) << green_shift) | ((c.b as u32) << blue_shift)
}

/// The pixel value for `color` with each channel shifted to its position.
pub fn pack_pixel(color: Color, red_shift: u8, green_shift: u8, blue_shift: u8) -> (r: u32)
    requires
        red_shift < 32,
        green_shift < 32,
        blue_shift < 32,
    ensures
        r == pack(color, red_shift, green_shift, blue_shift),
{
    ((color.r as u32) << red_shift) | ((color.g as u32) << green_shift) | ((color.b as u32)
        << blue_shift)
}

/// `buf` with the four bytes at `off` replaced by `v` in little-endian order.
pub open spec fn store_u32(buf: Seq<u8>, off: int, v: u32) -> Seq<u8> {
    buf.update(off, (v & 0xff) as u8).update(off + 1, ((v >> 8u32) & 0xff) as u8).update(
        off + 2,
        ((v >> 16u32) & 0xff) as u8,
    ).update(off + 3, ((v >> 24u32) & 0xff) as u8)
}

/// What the console holds: the pixel buffer, its geometry, the font, the
/// colors and the text cursor.
pub struct ConsoleModel {
    pub buffer: Seq<u8>,
    pub width: nat,
    pub height: nat,
    pub pitch: nat,
    pub bytes_per_pixel: nat,
    pub red_shift: u8,
    pub green_shift: u8,
    pub blue_shift: u8,
    pub col: nat,
    pub row: nat,
    pub max_cols: nat,
    pub max_rows: nat,
    pub fg: Color,
    pub bg: Color,
    pub font: Seq<u8>,
}

impl ConsoleModel {
    /// Bytes taken by one row of text cells.
    pub open spec fn row_bytes(self) -> nat {
        FONT_HEIGHT as nat * self.pitch
    }

    pub open spec fn wf(self) -> bool {
        &&& self.buffer.len() == self.height * self.pitch
        &&& self.max_cols == self.width / FONT_WIDTH as nat
        &&& self.max_rows == self.height / FONT_HEIGHT as nat
        &&& self.max_cols >= 1
        &&& self.max_rows >= 1
        &&& self.col <= self.max_cols
        &&& self.row < self.max_rows
        &&& self.red_shift < 32
        &&& self.green_shift < 32
        &&& self.blue_shift < 32
        &&& self.font.len() == FONT_BYTES
    }

    /// The same console with another pixel buffer.
    pub open spec fn with_buffer(self, buffer: Seq<u8>) -> ConsoleModel {
        ConsoleModel { buffer, ..self }
    }

    /// The same console with the cursor moved.
    pub open spec fn with_cursor(self, col: nat, row: nat) -> ConsoleModel {
        ConsoleModel { col, row, ..self }
    }

    /// `buf` after drawing pixel (x, y) in color `c`; unchanged where the
    /// pixel lies outside the screen or its four bytes outside `buf`.
    pub open spec fn put_pixel(self, buf: Seq<u8>, x: int, y: int, c: Color) -> Seq<u8> {
        let off = y * self.pitch + x * self.bytes_per_pixel;
        if 0 <= x < self.width && 0 <= y < self.height && off + 4 <= buf.len() {
            store_u32(buf, off, pack(c, self.red_shift, self.green_shift, self.blue_shift))
        } else {
            buf
        }
    }

    /// Whether pixel (dx, dy) of the glyph for byte `ch` is set: bit `7 - dx`
    /// of the glyph's row `dy`, the leftmost pixel being the high bit.
    pub open spec fn glyph_bit(self, ch: u8, dx: int, dy: int) -> bool {
        let bits = self.font[(ch % 128) * FONT_HEIGHT as int + dy];
        (bits >> ((7 - dx) as u8)) & 1 != 0
    }

    /// `buf` after drawing the first `k` pixels (row by row) of the glyph for
    /// `ch` in text cell (`col`, `row`): set bits in the foreground color,
    /// clear ones in the background color.
    pub open spec fn render_prefix(self, buf: Seq<u8>, ch: u8, col: nat, row: nat, k: nat) -> Seq<
        u8,
    >
        decreases k,
    {
        if k == 0 {
            buf
        } else {
            let i = k - 1;
            let dx = i % FONT_WIDTH as int;
            let dy = i / FONT_WIDTH as int;
            let c = if self.glyph_bit(ch, dx, dy) { self.fg } else { self.bg };
            self.put_pixel(
                self.render_prefix(buf, ch, col, row, (k - 1) as nat),
                col * FONT_WIDTH + dx,
                row * FONT_HEIGHT + dy,
                c,
            )
        }
    }

    /// The pixel buffer after moving every text row but the first up by one
    /// row and clearing the vacated last text row; scanlines below the last
    /// whole text row are kept.
    pub open spec fn scrolled(self) -> Seq<u8> {
        let rb = self.row_bytes() as int;
        let keep = (self.max_rows - 1) * rb;
        let end = self.max_rows * rb;
        Seq::new(
            self.buffer.len(),
            |i: int|
                if i < keep {
                    self.buffer[i + rb]
                } else if i < end {
                    0u8
                } else {
                    self.buffer[i]
                },
        )
    }

    /// Newline: column 0 of the next row, or of the last row after a scroll.
    pub open spec fn after_newline(self) -> ConsoleModel {
        if self.row + 1 < self.max_rows {
            self.with_cursor(0, self.row + 1)
        } else {
            self.with_buffer(self.scrolled()).with_cursor(0, self.row)
        }
    }

    /// The console after writing byte `b`: a newline for `\n`; any other byte
    /// wraps first if the row is full, then is drawn at the cursor, which
    /// moves one cell right.
    pub open spec fn after_byte(self, b: u8) -> ConsoleModel {
        if b == 10 {
            self.after_newline()
        } else {
            let m = if self.col >= self.max_cols {
                self.after_newline()
            } else {
                self
            };
            m.with_buffer(m.render(m.buffer, b, m.col, m.row)).with_cursor(m.col + 1, m.row)
        }
    }

    /// The console after writing every byte of `s` in order.
    pub open spec fn after_bytes(self, s: Seq<u8>) -> ConsoleModel
        decreases s.len(),
    {
        if s.len() == 0 {
            self
        } else {
            self.after_bytes(s.drop_last()).after_byte(s.last())
        }
    }

    /// The console after a backspace: the cursor steps back one cell, to the
    /// last column of the previous row from column 0, and that cell is
    /// blanked; nothing happens at (0, 0).
    pub open spec fn after_backspace(self) -> ConsoleModel {
        if self.col > 0 {
            let m = self.with_cursor((self.col - 1) as nat, self.row);
            m.with_buffer(m.render(m.buffer, 0x20, m.col, m.row))
        } else if self.row > 0 {
            let m = self.with_cursor((self.max_cols - 1) as nat, (self.row - 1) as nat);
            m.with_buffer(m.render(m.buffer, 0x20, m.col, m.row))
        } else {
            self
        }
    }

    /// The bytes of text row `r`.
    pub open spec fn text_row(self, r: int) -> Seq<u8> {
        let rb = self.row_bytes() as int;
        self.buffer.subrange(r * rb, (r + 1) * rb)
    }

    /// `buf` after drawing the whole glyph for `ch` in cell (`col`, `row`).
    pub open spec fn render(self, buf: Seq<u8>, ch: u8, col: nat, row: nat) -> Seq<u8> {
        self.render_prefix(buf, ch, col, row, (FONT_WIDTH * FONT_HEIGHT) as nat)
    }
}

proof fn lemma_render_prefix_len(m: ConsoleModel, buf: Seq<u8>, ch: u8, col: nat, row: nat, k: nat)
    ensures
        m.render_prefix(buf, ch, col, row, k).len() == buf.len(),
    decreases k,
{
    if k > 0 {
        lemma_render_prefix_len(m, buf, ch, col, row, (k - 1) as nat);
    }
}

/// A zero-filled buffer of `len` bytes.
pub open spec fn zeros(len: nat) -> Seq<u8> {
    Seq::new(len, |i: int| 0u8)
}

/// Whether a console can be set up over a buffer of `buffer_len` bytes with
/// this geometry and a font table of `font_len` bytes: the buffer spans
/// `height` scanlines of `pitch` bytes, the screen holds at least one text
/// cell, each channel shift is below 32 and the font is complete.
pub open spec fn geometry_usable(
    buffer_len: nat,
    width: usize,
    height: usize,
    pitch: usize,
    red_shift: u8,
    green_shift: u8,
    blue_shift: u8,
    font_len: nat,
) -> bool {
    &&& buffer_len == height * pitch
    &&& width >= FONT_WIDTH
    &&& height >= FONT_HEIGHT
    &&& red_shift < 32
    &&& green_shift < 32
    &&& blue_shift < 32
    &&& font_len == FONT_BYTES
}

/// A freshly set up console: cleared buffer, cursor at (0, 0), light grey on
/// black, grid size the pixel size divided by the glyph size.
pub open spec fn initial_console(
    buffer: Seq<u8>,
    width: usize,
    height: usize,
    pitch: usize,
    bpp: usize,
    red_shift: u8,
    green_shift: u8,
    blue_shift: u8,
    font: Seq<u8>,
) -> ConsoleModel {
    ConsoleModel {
        buffer: zeros(buffer.len()),
        width: width as nat,
        height: height as nat,
        pitch: pitch as nat,
        bytes_per_pixel: (bpp / 8) as nat,
        red_shift,
        green_shift,
        blue_shift,
        col: 0,
        row: 0,
        max_cols: (width / FONT_WIDTH) as nat,
        max_rows: (height / FONT_HEIGHT) as nat,
        fg: Color { r: 0xCC, g: 0xCC, b: 0xCC },
        bg: Color { r: 0, g: 0, b: 0 },
        font,
    }
}

/// Text console drawn into a pixel buffer with a fixed 8x16 font.
pub struct FramebufferWriter {
    buffer: Vec<u8>,
    width: usize,
    height: usize,
    pitch: usize,
    bytes_per_pixel: usize,
    red_shift: u8,
    green_shift: u8,
    blue_shift: u8,
    col: usize,
    row: usize,
    max_cols: usize,
    max_rows: usize,
    fg: Color,
    bg: Color,
    font: Vec<u8>,
}

impl View for FramebufferWriter {
    type V = ConsoleModel;

    closed spec fn view(&self) -> ConsoleModel {
        ConsoleModel {
            buffer: self.buffer@,
            width: self.width as nat,
            height: self.height as nat,
            pitch: self.pitch as nat,
            bytes_per_pixel: self.bytes_per_pixel as nat,
            red_shift: self.red_shift,
            green_shift: self.green_shift,
            blue_shift: self.blue_shift,
            col: self.col as nat,
            row: self.row as nat,
            max_cols: self.max_cols as nat,
            max_rows: self.max_rows as nat,
            fg: self.fg,
            bg: self.bg,
            font: self.font@,
        }
    }
}

impl FramebufferWriter {
    /// Sets up a console over `buffer`, a region of `height` scanlines of
    /// `pitch` bytes with `bpp` bits per pixel, using `font` (128 glyphs of
    /// 16 row bytes). The buffer is cleared and the cursor put at (0, 0).
    pub fn new(
        buffer: Vec<u8>,
        width: usize,
        height: usize,
        pitch: usize,
        bpp: usize,
        red_shift: u8,
        green_shift: u8,
        blue_shift: u8,
        font: Vec<u8>,
    ) -> (r: FramebufferWriter)
        requires
            buffer@.len() == height * pitch,
            width >= FONT_WIDTH,
            height >= FONT_HEIGHT,
            red_shift < 32,
            green_shift < 32,
            blue_shift < 32,
            font@.len() == FONT_BYTES,
        ensures
            r@.wf(),
            r@ == initial_console(buffer@, width, height, pitch, bpp, red_shift, green_shift, blue_shift, font@),
    {
        let bytes_per_pixel = bpp / 8;
        let max_cols = width / FONT_WIDTH;
        let max_rows = height / FONT_HEIGHT;
        let mut writer = FramebufferWriter {
            buffer,
            width,
            height,
            pitch,
            bytes_per_pixel,
            red_shift,
            green_shift,
            blue_shift,
            col: 0,
            row: 0,
            max_cols,
            max_rows,
            fg: Color::new(0xCC, 0xCC, 0xCC),
            bg: Color::new(0, 0, 0),
            font,
        };
        writer.clear_screen();
        writer
    }

    /// Width of the screen in pixels.
    pub fn width(&self) -> (r: usize)
        ensures
            r == self@.width,
    {
        self.width
    }

    /// Height of the screen in pixels.
    pub fn height(&self) -> (r: usize)
        ensures
            r == self@.height,
    {
        self.height
    }

    /// Number of text columns.
    pub fn max_cols(&self) -> (r: usize)
        ensures
            r == self@.max_cols,
    {
        self.max_cols
    }

    /// Number of text rows.
    pub fn max_rows(&self) -> (r: usize)
        ensures
            r == self@.max_rows,
    {
        self.max_rows
    }

    /// The text cursor as (column, row).
    pub fn cursor(&self) -> (r: (usize, usize))
        ensures
            r.0 == self@.col,
            r.1 == self@.row,
    {
        (self.col, self.row)
    }

    /// The pixel buffer.
    pub fn buffer(&self) -> (r: &Vec<u8>)
        ensures
            r@ == self@.buffer,
    {
        &self.buffer
    }

    /// Fills the whole buffer with the background (all-zero pixels) and puts
    /// the cursor at (0, 0).
    pub fn clear_screen(&mut self)
        ensures
            final(self)@ == old(self)@.with_buffer(zeros(old(self)@.buffer.len())).with_cursor(0, 0),
    {
        let len = self.buffer.len();
        let mut i: usize = 0;
        while i < len
            invariant
                i <= len,
                len == self.buffer@.len(),
                self@ == old(self)@.with_buffer(self.buffer@),
                forall|j: int| 0 <= j < i ==> self.buffer@[j] == 0u8,
            decreases len - i,
        {
            self.buffer.set(i, 0);
            i += 1;
        }
        self.col = 0;
        self.row = 0;
        assert(self.buffer@ =~= zeros(len as nat));
    }

    /// Moves every text row but the first up by one row and clears the last.
    /// Rows are copied from low addresses to high, so the overlapping source
    /// is read before it is overwritten.
    fn scroll_up(&mut self)
        requires
            old(self)@.wf(),
        ensures
            final(self)@ == old(self)@.with_buffer(old(self)@.scrolled()),
    {
        let ghost m = self@;
        let len = self.buffer.len();
        assert(self.max_rows * (FONT_HEIGHT * self.pitch) <= self.height * self.pitch) by (nonlinear_arith)
            requires
                self.max_rows == self.height / 16,
        ;
        assert((self.max_rows - 1) * (FONT_HEIGHT * self.pitch) + FONT_HEIGHT * self.pitch == self.max_rows * (FONT_HEIGHT * self.pitch)) by (nonlinear_arith)
            requires
                self.max_rows >= 1,
        ;
        assert(FONT_HEIGHT * self.pitch <= self.max_rows * (FONT_HEIGHT * self.pitch)) by (nonlinear_arith)
            requires
                self.max_rows >= 1,
        ;
        let rb = FONT_HEIGHT * self.pitch;
        let keep = (self.max_rows - 1) * rb;
        let end = self.max_rows * rb;
        let mut i: usize = 0;
        while i < keep
            invariant
                i <= keep,
                keep + rb == end,
                end <= m.buffer.len(),
                rb == m.row_bytes(),
                end == m.max_rows * m.row_bytes(),
                self@ == m.with_buffer(self.buffer@),
                self.buffer@.len() == m.buffer.len(),
                forall|j: int| 0 <= j < i ==> self.buffer@[j] == m.buffer[j + rb],
                forall|j: int| i <= j < m.buffer.len() ==> self.buffer@[j] == m.buffer[j],
            decreases keep - i,
        {
            let v = self.buffer[i + rb];
            self.buffer.set(i, v);
            i += 1;
        }
        while i < end
            invariant
                keep <= i <= end,
                keep + rb == end,
                end <= m.buffer.len(),
                rb == m.row_bytes(),
                end == m.max_rows * m.row_bytes(),
                self@ == m.with_buffer(self.buffer@),
                self.buffer@.len() == m.buffer.len(),
                forall|j: int| 0 <= j < keep ==> self.buffer@[j] == m.buffer[j + rb],
                forall|j: int| keep <= j < i ==> self.buffer@[j] == 0u8,
                forall|j: int| i <= j < m.buffer.len() ==> self.buffer@[j] == m.buffer[j],
            decreases end - i,
        {
            self.buffer.set(i, 0);
            i += 1;
        }
        assert(self.buffer@ =~= m.scrolled());
    }

    fn new_line(&mut self)
        requires
            old(self)@.wf(),
        ensures
            final(self)@ == old(self)@.after_newline(),
    {
        self.col = 0;
        if self.row + 1 < self.max_rows {
            self.row += 1;
        } else {
            self.scroll_up();
        }
    }

    /// Writes one byte at the cursor; see `ConsoleModel::after_byte`.
    pub fn write_byte(&mut self, byte: u8)
        requires
            old(self)@.wf(),
        ensures
            final(self)@ == old(self)@.after_byte(byte),
            final(self)@.wf(),
    {
        if byte == 10 {
            self.new_line();
        } else {
            if self.col >= self.max_cols {
                self.new_line();
            }
            proof {
                lemma_render_prefix_len(self@, self@.buffer, byte, self.col as nat, self.row as nat, 128);
            }
            self.render_char(byte, self.col, self.row);
            self.col += 1;
        }
    }

    /// Erases the cell before the cursor; see `ConsoleModel::after_backspace`.
    pub fn backspace(&mut self)
        requires
            old(self)@.wf(),
        ensures
            final(self)@ == old(self)@.after_backspace(),
            final(self)@.wf(),
    {
        if self.col > 0 {
            self.col -= 1;
            proof {
                lemma_render_prefix_len(self@, self@.buffer, 0x20, self.col as nat, self.row as nat, 128);
            }
            self.render_char(0x20, self.col, self.row);
        } else if self.row > 0 {
            self.row -= 1;
            self.col = self.max_cols - 1;
            proof {
                lemma_render_prefix_len(self@, self@.buffer, 0x20, self.col as nat, self.row as nat, 128);
            }
            self.render_char(0x20, self.col, self.row);
        }
    }

    /// Writes every byte of `s` in order.
    pub fn write_str(&mut self, s: &str)
        requires
            old(self)@.wf(),
        ensures
            final(self)@ == old(self)@.after_bytes(s.spec_bytes()),
            final(self)@.wf(),
    {
        let bytes = s.as_bytes();
        let mut i: usize = 0;
        while i < bytes.len()
            invariant
                i <= bytes@.len(),
                bytes@ == s.spec_bytes(),
                self@.wf(),
                self@ == old(self)@.after_bytes(bytes@.take(i as int)),
            decreases bytes@.len() - i,
        {
            assert(bytes@.take(i + 1).drop_last() =~= bytes@.take(i as int));
            self.write_byte(bytes[i]);
            i += 1;
        }
        assert(bytes@.take(bytes@.len() as int) =~= bytes@);
    }
    fn color_to_pixel(&self, color: Color) -> (r: u32)
        requires
            self@.wf(),
        ensures
            r == pack(color, self.red_shift, self.green_shift, self.blue_shift),
    {
        pack_pixel(color, self.red_shift, self.green_shift, self.blue_shift)
    }

    fn put_pixel(&mut self, x: usize, y: usize, color: Color)
        requires
            old(self)@.wf(),
        ensures
            final(self)@ == old(self)@.with_buffer(
                old(self)@.put_pixel(old(self)@.buffer, x as int, y as int, color),
            ),
    {
        if x >= self.width || y >= self.height {
            return;
        }
        let len = self.buffer.len();
        assert(y * self.pitch <= (self.height - 1) * self.pitch) by (nonlinear_arith)
            requires
                y < self.height,
        ;
        assert((self.height - 1) * self.pitch + self.pitch == self.height * self.pitch) by (nonlinear_arith);
        let row_start = y * self.pitch;
        let xo = match x.checked_mul(self.bytes_per_pixel) {
            Some(v) => v,
            None => return ,
        };
        if xo > len || len - xo < 4 || row_start > len - xo - 4 {
            return;
        }
        let off = row_start + xo;
        let pixel = self.color_to_pixel(color);
        self.buffer.set(off, (pixel & 0xff) as u8);
        self.buffer.set(off + 1, ((pixel >> 8u32) & 0xff) as u8);
        self.buffer.set(off + 2, ((pixel >> 16u32) & 0xff) as u8);
        self.buffer.set(off + 3, ((pixel >> 24u32) & 0xff) as u8);
    }

    /// Draws the glyph for `c` (masked to 7 bits) in text cell (`col`, `row`),
    /// background pixels included.
    fn render_char(&mut self, c: u8, col: usize, row: usize)
        requires
            old(self)@.wf(),
            col < old(self)@.max_cols,
            row < old(self)@.max_rows,
        ensures
            final(self)@ == old(self)@.with_buffer(
                old(self)@.render(old(self)@.buffer, c, col as nat, row as nat),
            ),
    {
        let ghost m = self@;
        let idx = (c as usize) & 0x7F;
        assert(idx == c % 128) by (bit_vector)
            requires
                idx == (c as usize) & 0x7F,
        ;
        assert(col * FONT_WIDTH + FONT_WIDTH <= self.width) by (nonlinear_arith)
            requires
                col < self.max_cols,
                self.max_cols == self.width / 8,
        ;
        assert(row * FONT_HEIGHT + FONT_HEIGHT <= self.height) by (nonlinear_arith)
            requires
                row < self.max_rows,
                self.max_rows == self.height / 16,
        ;
        let x0 = col * FONT_WIDTH;
        let y0 = row * FONT_HEIGHT;
        let mut dy: usize = 0;
        while dy < FONT_HEIGHT
            invariant
                dy <= FONT_HEIGHT,
                self@ == m.with_buffer(m.render_prefix(m.buffer, c, col as nat, row as nat, (dy * 8) as nat)),
                m.wf(),
                idx == c % 128,
                x0 == col * FONT_WIDTH,
                y0 == row * FONT_HEIGHT,
                x0 + FONT_WIDTH <= m.width,
                y0 + FONT_HEIGHT <= m.height,
            decreases FONT_HEIGHT - dy,
        {
            let bits = self.font[idx * FONT_HEIGHT + dy];
            let mut dx: usize = 0;
            while dx < FONT_WIDTH
                invariant
                    dy < FONT_HEIGHT,
                    dx <= FONT_WIDTH,
                    self@ == m.with_buffer(
                        m.render_prefix(m.buffer, c, col as nat, row as nat, (dy * 8 + dx) as nat),
                    ),
                    m.wf(),
                    idx == c % 128,
                    bits == m.font[idx * FONT_HEIGHT + dy],
                    x0 == col * FONT_WIDTH,
                    y0 == row * FONT_HEIGHT,
                    x0 + FONT_WIDTH <= m.width,
                    y0 + FONT_HEIGHT <= m.height,
                decreases FONT_WIDTH - dx,
            {
                let on = (bits >> ((7 - dx) as u8)) & 1 != 0;
                let color = if on {
                    self.fg
                } else {
                    self.bg
                };
                let ghost k: int = dy * 8 + dx;
                assert(k % 8 == dx as int && k / 8 == dy as int);
                proof {
                    lemma_render_prefix_len(m, m.buffer, c, col as nat, row as nat, k as nat);
                }
                self.put_pixel(x0 + dx, y0 + dy, color);
                dx += 1;
            }
            dy += 1;
        }
    }
}

/// Sets up a console from boot-supplied geometry, or returns `None` when the
/// geometry cannot carry one (see `geometry_usable`).
pub fn init(
    buffer: Vec<u8>,
    width: usize,
    height: usize,
    pitch: usize,
    bpp: usize,
    red_shift: u8,
    green_shift: u8,
    blue_shift: u8,
    font: Vec<u8>,
) -> (r: Option<FramebufferWriter>)
    ensures
        r is Some <==> geometry_usable(
            buffer@.len(),
            width,
            height,
            pitch,
            red_shift,
            green_shift,
            blue_shift,
            font@.len(),
        ),
        r matches Some(w) ==> w@ == initial_console(
            buffer@,
            width,
            height,
            pitch,
            bpp,
            red_shift,
            green_shift,
            blue_shift,
            font@,
        ),
{
    let len = buffer.len();
    let size_matches = match height.checked_mul(pitch) {
        Some(n) => n == len,
        None => false,
    };
    if !size_matches || width < FONT_WIDTH || height < FONT_HEIGHT || red_shift >= 32
        || green_shift >= 32 || blue_shift >= 32 || font.len() != FONT_BYTES {
        return None;
    }
    Some(
        FramebufferWriter::new(
            buffer,
            width,
            height,
            pitch,
            bpp,
            red_shift,
            green_shift,
            blue_shift,
            font,
        ),
    )
}

/// Writing at most one row's worth of bytes, none of them a newline, from the
/// top-left corner leaves the cursor just after them on the first row: a full
/// row leaves it past the last column, not yet on the next row.
pub proof fn lemma_short_write_cursor(m: ConsoleModel, s: Seq<u8>)
    requires
        m.wf(),
        m.col == 0,
        m.row == 0,
        s.len() <= m.max_cols,
        forall|i: int| 0 <= i < s.len() ==> s[i] != 10,
    ensures
        m.after_bytes(s).col == s.len(),
        m.after_bytes(s).row == 0,
        m.after_bytes(s).max_cols == m.max_cols,
    decreases s.len(),
{
    if s.len() > 0 {
        lemma_short_write_cursor(m, s.drop_last());
    }
}

/// A byte other than a newline written after the last column starts the next
/// row: it lands in column 0 there and the cursor moves to column 1.
pub proof fn lemma_wrap_on_next_write(m: ConsoleModel, b: u8)
    requires
        m.wf(),
        m.col == m.max_cols,
        m.row + 1 < m.max_rows,
        b != 10,
    ensures
        m.after_byte(b).col == 1,
        m.after_byte(b).row == m.row + 1,
{
}

/// A newline always moves the cursor to column 0; it advances the row unless
/// on the last row, where it scrolls instead and stays on that row.
pub proof fn lemma_newline_cursor(m: ConsoleModel)
    requires
        m.wf(),
    ensures
        m.after_byte(10).col == 0,
        m.row + 1 < m.max_rows ==> m.after_byte(10).row == m.row + 1 && m.after_byte(10).buffer
            == m.buffer,
        m.row + 1 == m.max_rows ==> m.after_byte(10).row == m.row && m.after_byte(10).buffer
            == m.scrolled(),
{
}

/// A newline on the last row scrolls: the top text row is gone, every other
/// row shows what the row below it showed, and the last row is blank.
pub proof fn lemma_newline_scrolls(m: ConsoleModel)
    requires
        m.wf(),
        m.row + 1 == m.max_rows,
    ensures
        forall|r: int|
            0 <= r < m.max_rows - 1 ==> #[trigger] m.after_byte(10).text_row(r) == m.text_row(r + 1),
        m.after_byte(10).text_row(m.max_rows - 1) == zeros(m.row_bytes()),
{
    let n = m.after_byte(10);
    let rb = m.row_bytes() as int;
    assert(m.max_rows * rb <= m.buffer.len()) by (nonlinear_arith)
        requires
            m.max_rows == m.height / 16,
            rb == 16 * m.pitch,
            m.buffer.len() == m.height * m.pitch,
    ;
    assert forall|r: int| 0 <= r < m.max_rows - 1 implies #[trigger] n.text_row(r) == m.text_row(r + 1) by {
        assert((r + 1) * rb == r * rb + rb) by (nonlinear_arith);
        assert((r + 2) * rb == r * rb + 2 * rb) by (nonlinear_arith);
        assert((r + 1) * rb <= (m.max_rows - 1) * rb) by (nonlinear_arith)
            requires
                r + 1 <= m.max_rows - 1,
                rb >= 0,
        ;
        assert(0 <= r * rb) by (nonlinear_arith)
            requires
                r >= 0,
                rb >= 0,
        ;
        assert((m.max_rows - 1) * rb + rb == m.max_rows * rb) by (nonlinear_arith);
        assert(n.text_row(r) =~= m.text_row(r + 1));
    }
    assert((m.max_rows - 1) * rb + rb == m.max_rows * rb) by (nonlinear_arith);
    assert(0 <= (m.max_rows - 1) * rb) by (nonlinear_arith)
        requires
            m.max_rows >= 1,
            rb >= 0,
    ;
    assert(n.text_row(m.max_rows - 1) =~= zeros(m.row_bytes()));
}

/// A backspace at the top-left corner changes nothing: cursor and pixel
/// buffer stay as they were.
pub proof fn lemma_backspace_at_origin(m: ConsoleModel)
    requires
        m.col == 0,
        m.row == 0,
    ensures
        m.after_backspace() == m,
{
}

/// With byte-aligned, distinct channel positions, each 8-bit channel is
/// recovered from the packed pixel by shifting it back down and masking.
pub proof fn lemma_pack_round_trip(c: Color, red_shift: u8, green_shift: u8, blue_shift: u8)
    requires
        red_shift % 8 == 0 && red_shift <= 24,
        green_shift % 8 == 0 && green_shift <= 24,
        blue_shift % 8 == 0 && blue_shift <= 24,
        red_shift != green_shift,
        red_shift != blue_shift,
        green_shift != blue_shift,
    ensures
        (pack(c, red_shift, green_shift, blue_shift) >> red_shift) & 0xff == c.r as u32,
        (pack(c, red_shift, green_shift, blue_shift) >> green_shift) & 0xff == c.g as u32,
        (pack(c, red_shift, green_shift, blue_shift) >> blue_shift) & 0xff == c.b as u32,
{
    let r = c.r;
    let g = c.g;
    let b = c.b;
    assert(((((r as u32) << red_shift) | ((g as u32) << green_shift) | ((b as u32) << blue_shift))
        >> red_shift) & 0xff == r as u32 && ((((r as u32) << red_shift) | ((g as u32)
        << green_shift) | ((b as u32) << blue_shift)) >> green_shift) & 0xff == g as u32 && ((((
    r as u32) << red_shift) | ((g as u32) << green_shift) | ((b as u32) << blue_shift))
        >> blue_shift) & 0xff == b as u32) by (bit_vector)
        requires
            red_shift % 8 == 0 && red_shift <= 24,
            green_shift % 8 == 0 && green_shift <= 24,
            blue_shift % 8 == 0 && blue_shift <= 24,
            red_shift != green_shift,
            red_shift != blue_shift,
            green_shift != blue_shift,
    ;
}

} // verus!
