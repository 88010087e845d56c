use vstd::prelude::*;

use crate::font_monospace;

verus! {

/// One cell of a monochrome display.
#[derive(Clone, Copy, Debug, PartialEq, Eq, Structural)]
pub enum Pixel {
    On,
    Off,
}

/// Whether bit `j` of a glyph row byte is set.
pub open spec fn spec_bit(b: u8, j: int) -> bool {
    b & (1u8 << (j as u8)) != 0
}

/// Whether the glyph of `code`, drawn with its top-left corner at
/// (start_row, start_col), sets the pixel at (r, c).
pub open spec fn spec_glyph_on(code: u8, start_row: int, start_col: int, r: int, c: int) -> bool {
    &&& start_row <= r < start_row + 9
    &&& start_col <= c < start_col + 5
    &&& spec_bit(crate::font_monospace::spec_glyph(code)[r - start_row], c - start_col)
}

/// Whether rendering the glyphs of `codes` left to right from the given
/// position sets the pixel at (r, c).
pub open spec fn spec_render_on(
    codes: Seq<u8>,
    start_row: int,
    start_col: int,
    r: int,
    c: int,
) -> bool
    decreases codes.len(),
{
    if codes.len() == 0 {
        false
    } else {
        spec_glyph_on(codes[0], start_row, start_col, r, c) || spec_render_on(
            codes.drop_first(),
            start_row,
            start_col + 5,
            r,
            c,
        )
    }
}

/// The glyph codes of a text, one byte per character.
pub open spec fn spec_codes_of(s: Seq<char>) -> Seq<u8> {
    Seq::new(s.len(), |k: int| (s[k] as u32) as u8)
}

/// The glyph codes `draw_number` renders: the decimal digits of the number
/// up to and including 100, the literal ">100" for anything larger.
pub open spec fn spec_number_codes(number: usize) -> Seq<u8> {
    if number > 100 {
        seq![0x3eu8, 0x31u8, 0x30u8, 0x30u8]
    } else if number == 100 {
        seq![0x31u8, 0x30u8, 0x30u8]
    } else if number >= 10 {
        seq![(0x30 + number / 10) as u8, (0x30 + number % 10) as u8]
    } else {
        seq![(0x30 + number) as u8]
    }
}

/// Rendering one more leading glyph adds exactly that glyph's pixels.
proof fn lemma_render_take_succ(
    codes: Seq<u8>,
    k: int,
    start_row: int,
    start_col: int,
    r: int,
    c: int,
)
    requires
        0 <= k < codes.len(),
    ensures
        spec_render_on(codes.take(k + 1), start_row, start_col, r, c) == (spec_render_on(
            codes.take(k),
            start_row,
            start_col,
            r,
            c,
        ) || spec_glyph_on(codes[k], start_row, start_col + 5 * k, r, c)),
    decreases k,
{
    if k == 0 {
        assert(codes.take(1).len() == 1);
        assert(codes.take(1)[0] == codes[0]);
        assert(codes.take(1).drop_first() =~= codes.take(0));
        assert(codes.take(0).len() == 0);
        assert(!spec_render_on(codes.take(0), start_row, start_col, r, c));
        assert(!spec_render_on(codes.take(1).drop_first(), start_row, start_col + 5, r, c));
        assert(spec_render_on(codes.take(1), start_row, start_col, r, c) == (spec_glyph_on(
            codes[0],
            start_row,
            start_col,
            r,
            c,
        ) || spec_render_on(codes.take(1).drop_first(), start_row, start_col + 5, r, c)));
    } else {
        assert(codes.take(k + 1).len() == k + 1);
        assert(codes.take(k).len() == k);
        assert(codes.take(k + 1)[0] == codes[0]);
        assert(codes.take(k)[0] == codes[0]);
        assert(codes.take(k + 1).drop_first() =~= codes.drop_first().take(k));
        assert(codes.take(k).drop_first() =~= codes.drop_first().take(k - 1));
        assert(spec_render_on(codes.take(k + 1), start_row, start_col, r, c) == (spec_glyph_on(
            codes[0],
            start_row,
            start_col,
            r,
            c,
        ) || spec_render_on(codes.drop_first().take(k), start_row, start_col + 5, r, c)));
        assert(spec_render_on(codes.take(k), start_row, start_col, r, c) == (spec_glyph_on(
            codes[0],
            start_row,
            start_col,
            r,
            c,
        ) || spec_render_on(codes.drop_first().take(k - 1), start_row, start_col + 5, r, c)));
        lemma_render_take_succ(codes.drop_first(), k - 1, start_row, start_col + 5, r, c);
        assert(codes.drop_first()[k - 1] == codes[k]);
        assert(start_col + 5 + 5 * (k - 1) == start_col + 5 * k);
    }
}

/// An addressable monochrome grid with a fixed row/column extent.
///
/// The spec projections give the extent and the value of every cell, so the
/// derived drawing operations can state exactly which pixels they touch.
/// `set_pixel` requires in-range coordinates: out-of-range writes are a
/// caller contract violation, never silently wrapped.  The glyph-drawing
/// operations instead clip: pixels that would fall outside the grid are
/// skipped, and pixels inside the grid are only ever turned on.
pub trait PixelDisplay: Sized {
    spec fn spec_rows(&self) -> nat;

    spec fn spec_columns(&self) -> nat;

    spec fn spec_pixel(&self, row: int, col: int) -> Pixel;

    /// Sets the pixel to the desired state.
    fn set_pixel(&mut self, row: usize, col: usize, value: Pixel)
        requires
            row < old(self).spec_rows(),
            col < old(self).spec_columns(),
        ensures
            final(self).spec_rows() == old(self).spec_rows(),
            final(self).spec_columns() == old(self).spec_columns(),
            final(self).spec_pixel(row as int, col as int) == value,
            forall|r: int, c: int|
                !(r == row as int && c == col as int) ==> #[trigger] final(self).spec_pixel(r, c)
                    == old(self).spec_pixel(r, c),
    ;

    fn rows(&self) -> (r: usize)
        ensures
            r == self.spec_rows(),
    ;

    fn columns(&self) -> (c: usize)
        ensures
            c == self.spec_columns(),
    ;

    /// Sets every pixel of the grid to `value`.
    fn fill(&mut self, value: Pixel)
        ensures
            final(self).spec_rows() == old(self).spec_rows(),
            final(self).spec_columns() == old(self).spec_columns(),
            forall|r: int, c: int|
                0 <= r < old(self).spec_rows() && 0 <= c < old(self).spec_columns()
                    ==> #[trigger] final(self).spec_pixel(r, c) == value,
            forall|r: int, c: int|
                !(0 <= r < old(self).spec_rows() && 0 <= c < old(self).spec_columns())
                    ==> #[trigger] final(self).spec_pixel(r, c) == old(self).spec_pixel(r, c),
    {
        let rows = self.rows();
        let cols = self.columns();
        for row in 0..rows
            invariant
                rows == self.spec_rows(),
                cols == self.spec_columns(),
                forall|r: int, c: int|
                    0 <= r < row && 0 <= c < cols ==> #[trigger] self.spec_pixel(r, c) == value,
                forall|r: int, c: int|
                    !(0 <= r < row && 0 <= c < cols) ==> #[trigger] self.spec_pixel(r, c)
                        == old(self).spec_pixel(r, c),
        {
            for col in 0..cols
                invariant
                    rows == self.spec_rows(),
                    cols == self.spec_columns(),
                    row < rows,
                    forall|r: int, c: int|
                        0 <= r < row && 0 <= c < cols ==> #[trigger] self.spec_pixel(r, c)
                            == value,
                    forall|c: int|
                        0 <= c < col ==> #[trigger] self.spec_pixel(row as int, c) == value,
                    forall|r: int, c: int|
                        !(0 <= r < row && 0 <= c < cols) && !(r == row as int && 0 <= c < col)
                            ==> #[trigger] self.spec_pixel(r, c) == old(self).spec_pixel(r, c),
            {
                self.set_pixel(row, col, value);
            }
        }
    }

    /// Sets every pixel of the grid to `Pixel::Off`.
    fn clear(&mut self)
        ensures
            final(self).spec_rows() == old(self).spec_rows(),
            final(self).spec_columns() == old(self).spec_columns(),
            forall|r: int, c: int|
                0 <= r < old(self).spec_rows() && 0 <= c < old(self).spec_columns()
                    ==> #[trigger] final(self).spec_pixel(r, c) == Pixel::Off,
            forall|r: int, c: int|
                !(0 <= r < old(self).spec_rows() && 0 <= c < old(self).spec_columns())
                    ==> #[trigger] final(self).spec_pixel(r, c) == old(self).spec_pixel(r, c),
    {
        self.fill(Pixel::Off);
    }

    /// Renders the 5x9 glyph of one printable ASCII code, clipped to the grid.
    fn draw_glyph(&mut self, start_row: isize, start_col: isize, code: u8)
        requires
            0x20 <= code <= 0x7e,
            start_row <= isize::MAX - 9,
            start_col <= isize::MAX - 5,
            old(self).spec_rows() <= isize::MAX,
            old(self).spec_columns() <= isize::MAX,
        ensures
            final(self).spec_rows() == old(self).spec_rows(),
            final(self).spec_columns() == old(self).spec_columns(),
            forall|r: int, c: int|
                #[trigger] final(self).spec_pixel(r, c) == if 0 <= r < old(self).spec_rows() && 0
                    <= c < old(self).spec_columns() && spec_glyph_on(
                    code,
                    start_row as int,
                    start_col as int,
                    r,
                    c,
                ) {
                    Pixel::On
                } else {
                    old(self).spec_pixel(r, c)
                },
    {
        let bytes = font_monospace::get_bytes_for_char(code);
        let rows = self.rows();
        let cols = self.columns();
        for i in 0..9usize
            invariant
                bytes@ == crate::font_monospace::spec_glyph(code),
                rows == self.spec_rows(),
                cols == self.spec_columns(),
                rows <= isize::MAX,
                cols <= isize::MAX,
                start_row <= isize::MAX - 9,
                start_col <= isize::MAX - 5,
                self.spec_rows() == old(self).spec_rows(),
                self.spec_columns() == old(self).spec_columns(),
                forall|r: int, c: int|
                    #[trigger] self.spec_pixel(r, c) == if 0 <= r < rows && 0 <= c < cols
                        && r - start_row < i && spec_glyph_on(
                        code,
                        start_row as int,
                        start_col as int,
                        r,
                        c,
                    ) {
                        Pixel::On
                    } else {
                        old(self).spec_pixel(r, c)
                    },
        {
            let b = bytes[i];
            for j in 0..5usize
                invariant
                    bytes@ == crate::font_monospace::spec_glyph(code),
                    i < 9,
                    b == bytes@[i as int],
                    rows == self.spec_rows(),
                    cols == self.spec_columns(),
                    rows <= isize::MAX,
                    cols <= isize::MAX,
                    start_row <= isize::MAX - 9,
                    start_col <= isize::MAX - 5,
                    self.spec_rows() == old(self).spec_rows(),
                    self.spec_columns() == old(self).spec_columns(),
                    forall|r: int, c: int|
                        #[trigger] self.spec_pixel(r, c) == if 0 <= r < rows && 0 <= c < cols && (
                        r - start_row < i || (r - start_row == i && c - start_col < j))
                            && spec_glyph_on(code, start_row as int, start_col as int, r, c) {
                            Pixel::On
                        } else {
                            old(self).spec_pixel(r, c)
                        },
            {
                if b & (1u8 << j) != 0 {
                    let row = start_row + (i as isize);
                    let col = start_col + (j as isize);
                    proof {
                        assert(spec_bit(b, j as int));
                    }
                    if row >= 0 && row < (rows as isize) && col >= 0 && col < (cols as isize) {
                        self.set_pixel(row as usize, col as usize, Pixel::On);
                    }
                } else {
                    proof {
                        assert(!spec_bit(b, j as int));
                    }
                }
            }
        }
    }

    /// Renders `text` glyph by glyph starting at the given position.
    /// Pixels that would fall outside the grid are silently clipped; exactly
    /// the pixels under set glyph bits are turned on, nothing else changes.
    fn draw_text(&mut self, start_row: isize, start_col: isize, text: &str)
        requires
            forall|i: int|
                0 <= i < text@.len() ==> 0x20 <= #[trigger] (text@[i] as u32) <= 0x7e,
            start_row <= isize::MAX - 9,
            start_col + 5 * text@.len() + 5 <= isize::MAX,
            old(self).spec_rows() <= isize::MAX,
            old(self).spec_columns() <= isize::MAX,
        ensures
            final(self).spec_rows() == old(self).spec_rows(),
            final(self).spec_columns() == old(self).spec_columns(),
            forall|r: int, c: int|
                #[trigger] final(self).spec_pixel(r, c) == if 0 <= r < old(self).spec_rows() && 0
                    <= c < old(self).spec_columns() && spec_render_on(
                    spec_codes_of(text@),
                    start_row as int,
                    start_col as int,
                    r,
                    c,
                ) {
                    Pixel::On
                } else {
                    old(self).spec_pixel(r, c)
                },
    {
        let ghost codes = spec_codes_of(text@);
        let mut column: isize = start_col;
        let n = text.unicode_len();
        proof {
            assert(codes.take(0).len() == 0);
        }
        for k in 0..n
            invariant
                n == text@.len(),
                codes == spec_codes_of(text@),
                codes.len() == n,
                column == start_col + 5 * k,
                start_row <= isize::MAX - 9,
                start_col + 5 * n + 5 <= isize::MAX,
                self.spec_rows() <= isize::MAX,
                self.spec_columns() <= isize::MAX,
                self.spec_rows() == old(self).spec_rows(),
                self.spec_columns() == old(self).spec_columns(),
                forall|i: int|
                    0 <= i < text@.len() ==> 0x20 <= #[trigger] (text@[i] as u32) <= 0x7e,
                forall|r: int, c: int|
                    #[trigger] self.spec_pixel(r, c) == if 0 <= r < old(self).spec_rows() && 0 <= c
                        < old(self).spec_columns() && spec_render_on(
                        codes.take(k as int),
                        start_row as int,
                        start_col as int,
                        r,
                        c,
                    ) {
                        Pixel::On
                    } else {
                        old(self).spec_pixel(r, c)
                    },
        {
            let ch = text.get_char(k);
            assert(0x20 <= ch as u32 <= 0x7e);
            let code: u8 = (ch as u32) as u8;
            proof {
                assert(codes[k as int] == code);
            }
            self.draw_glyph(start_row, column, code);
            proof {
                assert forall|r: int, c: int|
                    spec_render_on(
                        codes.take(k + 1),
                        start_row as int,
                        start_col as int,
                        r,
                        c,
                    ) == (spec_render_on(
                        codes.take(k as int),
                        start_row as int,
                        start_col as int,
                        r,
                        c,
                    ) || spec_glyph_on(code, start_row as int, start_col + 5 * k, r, c)) by {
                    lemma_render_take_succ(
                        codes,
                        k as int,
                        start_row as int,
                        start_col as int,
                        r,
                        c,
                    );
                }
            }
            column = column + 5;
        }
        proof {
            assert(codes.take(n as int) =~= codes);
        }
    }

    /// Draws the decimal text of `number` via per-digit glyphs.
    /// Supports numbers up to and including 100, renders ">100" otherwise:
    /// callers must not expect exact rendering beyond 100.
    fn draw_number(&mut self, start_row: isize, start_col: isize, number: usize)
        requires
            start_row <= isize::MAX - 9,
            start_col <= isize::MAX - 25,
            old(self).spec_rows() <= isize::MAX,
            old(self).spec_columns() <= isize::MAX,
        ensures
            final(self).spec_rows() == old(self).spec_rows(),
            final(self).spec_columns() == old(self).spec_columns(),
            forall|r: int, c: int|
                #[trigger] final(self).spec_pixel(r, c) == if 0 <= r < old(self).spec_rows() && 0
                    <= c < old(self).spec_columns() && spec_render_on(
                    spec_number_codes(number),
                    start_row as int,
                    start_col as int,
                    r,
                    c,
                ) {
                    Pixel::On
                } else {
                    old(self).spec_pixel(r, c)
                },
    {
        if number > 100 {
            proof {
                reveal_strlit(">100");
                assert(spec_codes_of(">100"@) =~= spec_number_codes(number));
            }
            self.draw_text(start_row, start_col, ">100");
        } else if number == 100 {
            proof {
                reveal_strlit("100");
                assert(spec_codes_of("100"@) =~= spec_number_codes(number));
            }
            self.draw_text(start_row, start_col, "100");
        } else if number >= 10 {
            let tens: u8 = (number / 10) as u8;
            let ones: u8 = (number % 10) as u8;
            self.draw_glyph(start_row, start_col, 0x30 + tens);
            self.draw_glyph(start_row, start_col + 5, 0x30 + ones);
            proof {
                let codes = spec_number_codes(number);
                assert forall|r: int, c: int|
                    spec_render_on(codes, start_row as int, start_col as int, r, c) == (
                    spec_glyph_on((0x30 + tens) as u8, start_row as int, start_col as int, r, c)
                        || spec_glyph_on(
                        (0x30 + ones) as u8,
                        start_row as int,
                        start_col + 5,
                        r,
                        c,
                    )) by {
                    reveal_with_fuel(spec_render_on, 3);
                    assert(codes.len() == 2);
                    assert(codes[0] == (0x30 + tens) as u8);
                    assert(codes.drop_first().len() == 1);
                    assert(codes.drop_first()[0] == (0x30 + ones) as u8);
                    assert(codes.drop_first().drop_first().len() == 0);
                    assert(!spec_render_on(
                        codes.drop_first().drop_first(),
                        start_row as int,
                        start_col + 10,
                        r,
                        c,
                    ));
                }
            }
        } else {
            let ones: u8 = number as u8;
            self.draw_glyph(start_row, start_col, 0x30 + ones);
            proof {
                let codes = spec_number_codes(number);
                assert forall|r: int, c: int|
                    spec_render_on(codes, start_row as int, start_col as int, r, c)
                        == spec_glyph_on(
                        (0x30 + ones) as u8,
                        start_row as int,
                        start_col as int,
                        r,
                        c,
                    ) by {
                    reveal_with_fuel(spec_render_on, 2);
                    assert(codes.len() == 1);
                    assert(codes[0] == (0x30 + ones) as u8);
                    assert(codes.drop_first().len() == 0);
                    assert(!spec_render_on(
                        codes.drop_first(),
                        start_row as int,
                        start_col + 5,
                        r,
                        c,
                    ));
                }
            }
        }
    }
}

/// A concrete in-memory pixel grid, sized at construction.
///
/// Pixels are stored row-major in one flat buffer of `rows * cols` cells.
pub struct BufferDisplay {
    rows: usize,
    cols: usize,
    buffer: Vec<Pixel>,
}

/// The flat index of a grid cell stays inside the buffer.
proof fn lemma_grid_index_bound(r: int, c: int, rows: int, cols: int)
    requires
        0 <= r < rows,
        0 <= c < cols,
    ensures
        0 <= r * cols + c < rows * cols,
{
    assert(0 <= r * cols + c < rows * cols) by (nonlinear_arith)
        requires
            0 <= r < rows,
            0 <= c < cols,
    ;
}

/// Distinct in-range grid cells have distinct flat indices.
proof fn lemma_grid_index_injective(r1: int, c1: int, r2: int, c2: int, cols: int)
    requires
        0 <= c1 < cols,
        0 <= c2 < cols,
        r1 * cols + c1 == r2 * cols + c2,
    ensures
        r1 == r2,
        c1 == c2,
{
    assert(r1 == r2 && c1 == c2) by (nonlinear_arith)
        requires
            0 <= c1 < cols,
            0 <= c2 < cols,
            r1 * cols + c1 == r2 * cols + c2,
    ;
}

impl BufferDisplay {
    /// The buffer always holds exactly one cell per grid position.
    #[verifier::type_invariant]
    spec fn wf(&self) -> bool {
        self.buffer@.len() == self.rows * self.cols
    }

    /// A rows x cols grid with every pixel off.
    pub fn new(rows: usize, cols: usize) -> (d: Self)
        requires
            1 <= rows,
            1 <= cols,
            rows * cols <= usize::MAX,
        ensures
            d.spec_rows() == rows,
            d.spec_columns() == cols,
            forall|r: int, c: int| #[trigger] d.spec_pixel(r, c) == Pixel::Off,
    {
        let size: usize = rows * cols;
        let mut buffer: Vec<Pixel> = Vec::new();
        for i in 0..size
            invariant
                buffer@.len() == i,
                forall|k: int| 0 <= k < i ==> #[trigger] buffer@[k] == Pixel::Off,
        {
            buffer.push(Pixel::Off);
        }
        let d = BufferDisplay { rows, cols, buffer };
        proof {
            assert forall|r: int, c: int| #[trigger] d.spec_pixel(r, c) == Pixel::Off by {
                if 0 <= r < rows && 0 <= c < cols {
                    lemma_grid_index_bound(r, c, rows as int, cols as int);
                }
            }
        }
        d
    }

    /// Reads one pixel back; the coordinates must be in range.
    pub fn get_pixel(&self, row: usize, col: usize) -> (p: Pixel)
        requires
            row < self.spec_rows(),
            col < self.spec_columns(),
        ensures
            p == self.spec_pixel(row as int, col as int),
    {
        // binding the length brings "rows * cols fits in usize" into scope
        let _stored = self.buffer.len();
        proof {
            use_type_invariant(&*self);
            lemma_grid_index_bound(row as int, col as int, self.rows as int, self.cols as int);
        }
        self.buffer[row * self.cols + col]
    }
}

impl PixelDisplay for BufferDisplay {
    closed spec fn spec_rows(&self) -> nat {
        self.rows as nat
    }

    closed spec fn spec_columns(&self) -> nat {
        self.cols as nat
    }

    closed spec fn spec_pixel(&self, row: int, col: int) -> Pixel {
        if 0 <= row < self.rows && 0 <= col < self.cols {
            self.buffer@[row * self.cols + col]
        } else {
            Pixel::Off
        }
    }

    fn set_pixel(&mut self, row: usize, col: usize, value: Pixel) {
        // binding the length brings "rows * cols fits in usize" into scope
        let _stored = self.buffer.len();
        proof {
            use_type_invariant(&*self);
            lemma_grid_index_bound(row as int, col as int, self.rows as int, self.cols as int);
        }
        let index: usize = row * self.cols + col;
        self.buffer[index] = value;
        proof {
            assert forall|r: int, c: int|
                !(r == row as int && c == col as int) implies #[trigger] self.spec_pixel(r, c)
                == old(self).spec_pixel(r, c) by {
                if 0 <= r < self.rows && 0 <= c < self.cols {
                    lemma_grid_index_bound(r, c, self.rows as int, self.cols as int);
                    if r * self.cols + c == index {
                        lemma_grid_index_injective(r, c, row as int, col as int, self.cols as int);
                    }
                }
            }
        }
    }

    fn rows(&self) -> usize {
        self.rows
    }

    fn columns(&self) -> usize {
        self.cols
    }
}

/// A display that has been rotated 90 degrees: it addresses the wrapped
/// display with rows and columns exchanged.
pub struct RotatedDisplay<D: PixelDisplay> {
    display: D,
}

impl<D: PixelDisplay> RotatedDisplay<D> {
    /// The wrapped display, for specifications.
    pub closed spec fn spec_inner(&self) -> D {
        self.display
    }

    pub fn new(display: D) -> (r: Self)
        ensures
            r.spec_inner() == display,
    {
        RotatedDisplay { display }
    }

    pub fn inner(&self) -> (r: &D)
        ensures
            *r == self.spec_inner(),
    {
        &self.display
    }

    pub fn inner_mut(&mut self) -> (r: &mut D)
        ensures
            *r == old(self).spec_inner(),
            final(self).spec_inner() == *final(r),
    {
        &mut self.display
    }
}

impl<D: PixelDisplay> PixelDisplay for RotatedDisplay<D> {
    open spec fn spec_rows(&self) -> nat {
        self.spec_inner().spec_columns()
    }

    open spec fn spec_columns(&self) -> nat {
        self.spec_inner().spec_rows()
    }

    open spec fn spec_pixel(&self, row: int, col: int) -> Pixel {
        self.spec_inner().spec_pixel(self.spec_inner().spec_rows() - col - 1, row)
    }

    fn set_pixel(&mut self, row: usize, col: usize, value: Pixel) {
        let inner_rows = self.display.rows();
        self.display.set_pixel(inner_rows - col - 1, row, value);
    }

    fn rows(&self) -> usize {
        self.display.columns()
    }

    fn columns(&self) -> usize {
        self.display.rows()
    }
}

} // verus!
