use vstd::arithmetic::div_mod::{lemma_fundamental_div_mod, lemma_fundamental_div_mod_converse};
use vstd::prelude::*;

verus! {

/// Width of the bitmap in pixels.
pub const DISPLAY_WIDTH: usize = 64;

/// Height of the bitmap in pixels.
pub const DISPLAY_HEIGHT: usize = 32;

/// Number of pixels in the bitmap.
pub const DISPLAY_PIXELS: usize = 2048;

/// The display port of the machine. Implementations own the bitmap and
/// whatever shows it.
pub trait Chip8Display: Sized {
    fn new() -> Self;

    /// Turns every pixel off.
    fn clear(&mut self) -> std::io::Result<()>;

    /// XORs `data` into the bitmap with its top-left corner at (`x`, `y`),
    /// one row per byte, most significant bit leftmost, and reports whether a
    /// lit pixel was turned off.
    fn draw(&mut self, x: u8, y: u8, data: &[u8]) -> std::io::Result<bool>;

    /// Makes every change so far visible.
    fn flush(&mut self) -> std::io::Result<()>;
}

/// Bit `j` of a sprite row, counting from the most significant bit.
pub open spec fn sprite_bit(b: u8, j: int) -> bool {
    (b >> ((7 - j) as u8)) & 1u8 == 1u8
}

/// Whether drawing `data` at (`x`, `y`) flips pixel `p` (row `p / 64`, column
/// `p % 64`). Pixels of the sprite past the right or bottom edge fall off the
/// bitmap: they are dropped, not wrapped.
pub open spec fn flips(x: u8, y: u8, data: Seq<u8>, p: int) -> bool {
    let r = p / DISPLAY_WIDTH as int;
    let c = p % DISPLAY_WIDTH as int;
    &&& y <= r < y + data.len()
    &&& x <= c < x + 8
    &&& sprite_bit(data[r - y], c - x)
}

/// The bitmap `f` after drawing `data` at (`x`, `y`).
pub open spec fn draw_spec(f: Seq<bool>, x: u8, y: u8, data: Seq<u8>) -> Seq<bool> {
    Seq::new(f.len(), |p: int| f[p] != flips(x, y, data, p))
}

/// Whether drawing `data` at (`x`, `y`) on `f` turns a lit pixel off.
pub open spec fn collides(f: Seq<bool>, x: u8, y: u8, data: Seq<u8>) -> bool {
    exists|p: int| 0 <= p < f.len() && #[trigger] f[p] && flips(x, y, data, p)
}

/// Whether drawing `data` at (`x`, `y`) on `f` turns an unlit pixel on.
pub open spec fn lights(f: Seq<bool>, x: u8, y: u8, data: Seq<u8>) -> bool {
    exists|p: int| 0 <= p < f.len() && !#[trigger] f[p] && flips(x, y, data, p)
}

/// Whether pixel `p` comes before column `col` of row `row`, in row-major order.
pub open spec fn drawn_before(p: int, row: int, col: int) -> bool {
    let w = DISPLAY_WIDTH as int;
    p / w < row || (p / w == row && p % w < col)
}

/// Moving the drawing position one column along row `row` touches at most
/// the pixel at that column.
proof fn lemma_next_pixel(
    f0: Seq<bool>,
    before: Seq<bool>,
    after: Seq<bool>,
    x: u8,
    y: u8,
    data: Seq<u8>,
    row: int,
    col: int,
)
    requires
        f0.len() == DISPLAY_PIXELS,
        before.len() == DISPLAY_PIXELS,
        0 <= row,
        0 <= col,
        forall|p: int|
            0 <= p < DISPLAY_PIXELS ==> #[trigger] before[p] == (f0[p] != (flips(x, y, data, p)
                && drawn_before(p, row, col))),
        col < DISPLAY_WIDTH ==> after == before.update(
            row * DISPLAY_WIDTH + col,
            before[row * DISPLAY_WIDTH + col] != flips(x, y, data, row * DISPLAY_WIDTH + col),
        ),
        col < DISPLAY_WIDTH ==> row * DISPLAY_WIDTH + col < DISPLAY_PIXELS,
        col >= DISPLAY_WIDTH ==> after == before,
    ensures
        forall|p: int|
            0 <= p < DISPLAY_PIXELS ==> #[trigger] after[p] == (f0[p] != (flips(x, y, data, p)
                && drawn_before(p, row, col + 1))),
        forall|p: int|
            0 <= p < DISPLAY_PIXELS ==> (#[trigger] drawn_before(p, row, col + 1) == (drawn_before(
                p,
                row,
                col,
            ) || (col < DISPLAY_WIDTH && p == row * DISPLAY_WIDTH + col))),
{
    assert forall|p: int| 0 <= p < DISPLAY_PIXELS implies (#[trigger] drawn_before(
        p,
        row,
        col + 1,
    ) == (drawn_before(p, row, col) || (col < DISPLAY_WIDTH && p == row * DISPLAY_WIDTH + col)))
        by {
        lemma_fundamental_div_mod(p, DISPLAY_WIDTH as int);
        if col < DISPLAY_WIDTH && p == row * DISPLAY_WIDTH + col {
            lemma_fundamental_div_mod_converse(p, DISPLAY_WIDTH as int, row, col);
        }
    }
    assert forall|p: int| 0 <= p < DISPLAY_PIXELS implies #[trigger] after[p] == (f0[p] != (flips(
        x,
        y,
        data,
        p,
    ) && drawn_before(p, row, col + 1))) by {
        assert(drawn_before(p, row, col + 1) == (drawn_before(p, row, col) || (col < DISPLAY_WIDTH
            && p == row * DISPLAY_WIDTH + col)));
        if col < DISPLAY_WIDTH && p == row * DISPLAY_WIDTH + col {
            lemma_fundamental_div_mod_converse(p, DISPLAY_WIDTH as int, row, col);
        }
    }
}

/// A 64 x 32 monochrome bitmap, row after row.
pub struct FrameBuffer {
    pixels: [bool; 2048],
}

impl View for FrameBuffer {
    type V = Seq<bool>;

    closed spec fn view(&self) -> Seq<bool> {
        self.pixels@
    }
}

impl FrameBuffer {
    /// Every bitmap has 64 x 32 pixels.
    pub proof fn lemma_pixel_count(&self)
        ensures
            self@.len() == DISPLAY_PIXELS,
    {
    }

    /// A bitmap with every pixel off.
    pub fn blank() -> (r: Self)
        ensures
            r@ == Seq::new(DISPLAY_PIXELS as nat, |p: int| false),
    {
        let r = FrameBuffer { pixels: [false; 2048] };
        assert(r@ =~= Seq::new(DISPLAY_PIXELS as nat, |p: int| false));
        r
    }

    /// Turns every pixel off.
    pub fn clear_pixels(&mut self)
        ensures
            final(self)@ == Seq::new(DISPLAY_PIXELS as nat, |p: int| false),
    {
        *self = FrameBuffer::blank();
    }

    /// Whether the pixel at `row`, `col` is lit.
    pub fn pixel(&self, row: usize, col: usize) -> (r: bool)
        requires
            row < DISPLAY_HEIGHT,
            col < DISPLAY_WIDTH,
        ensures
            r == self@[row * DISPLAY_WIDTH + col],
    {
        self.pixels[row * DISPLAY_WIDTH + col]
    }

    /// XORs `data` into the bitmap at (`x`, `y`) and reports whether a lit
    /// pixel was turned off.
    pub fn draw_sprite(&mut self, x: u8, y: u8, data: &[u8]) -> (collision: bool)
        ensures
            final(self)@ == draw_spec(old(self)@, x, y, data@),
            collision == collides(old(self)@, x, y, data@),
    {
        let ghost f0 = self@;
        let mut pixel_cleared = false;
        let mut i: usize = 0;
        while i < data.len() && y as usize + i < DISPLAY_HEIGHT
            invariant
                f0 == old(self)@,
                f0.len() == DISPLAY_PIXELS,
                i <= data@.len(),
                i <= DISPLAY_HEIGHT,
                forall|p: int|
                    0 <= p < DISPLAY_PIXELS ==> #[trigger] self@[p] == (f0[p] != (flips(
                        x,
                        y,
                        data@,
                        p,
                    ) && drawn_before(p, y + i, 0))),
                pixel_cleared == exists|p: int|
                    0 <= p < DISPLAY_PIXELS && #[trigger] f0[p] && flips(x, y, data@, p)
                        && drawn_before(p, y + i, 0),
            decreases data@.len() - i,
        {
            let row = y as usize + i;
            let bits = data[i];
            let mut j: u8 = 0;
            while j < 8
                invariant
                    f0 == old(self)@,
                    f0.len() == DISPLAY_PIXELS,
                    i < data@.len(),
                    row == y + i,
                    row < DISPLAY_HEIGHT,
                    bits == data@[i as int],
                    j <= 8,
                    forall|p: int|
                        0 <= p < DISPLAY_PIXELS ==> #[trigger] self@[p] == (f0[p] != (flips(
                            x,
                            y,
                            data@,
                            p,
                        ) && drawn_before(p, row as int, x + j))),
                    pixel_cleared == exists|p: int|
                        0 <= p < DISPLAY_PIXELS && #[trigger] f0[p] && flips(x, y, data@, p)
                            && drawn_before(p, row as int, x + j),
                decreases 8 - j,
            {
                let ghost before = self@;
                let ghost was_cleared = pixel_cleared;
                let col = x as usize + j as usize;
                if col < DISPLAY_WIDTH {
                    let idx = row * DISPLAY_WIDTH + col;
                    proof {
                        lemma_fundamental_div_mod_converse(idx as int, 64, row as int, col as int);
                    }
                    let flip = (bits >> (7 - j)) & 1 == 1;
                    assert(flip == flips(x, y, data@, idx as int));
                    if self.pixels[idx] && flip {
                        pixel_cleared = true;
                    }
                    self.pixels[idx] = self.pixels[idx] != flip;
                    proof {
                        lemma_next_pixel(f0, before, self@, x, y, data@, row as int, x + j);
                        if pixel_cleared && !was_cleared {
                            assert(f0[idx as int] && flips(x, y, data@, idx as int)
                                && drawn_before(idx as int, row as int, x + j + 1));
                        }
                    }
                } else {
                    proof {
                        lemma_next_pixel(f0, before, self@, x, y, data@, row as int, x + j);
                    }
                }
                j = j + 1;
            }
            proof {
                assert forall|p: int| 0 <= p < DISPLAY_PIXELS implies (flips(x, y, data@, p)
                    && drawn_before(p, row as int, x + 8)) == (flips(x, y, data@, p)
                    && drawn_before(p, y + i + 1, 0)) by {}
            }
            i = i + 1;
        }
        assert(self@ =~= draw_spec(f0, x, y, data@));
        pixel_cleared
    }

    /// The cell of a terminal that shows pixel rows `2 * hrow`, `2 * hrow + 1`
    /// and columns `2 * hcol`, `2 * hcol + 1`: bit 0 is the top left pixel,
    /// bit 1 the top right, bit 2 the bottom left and bit 3 the bottom right.
    pub fn block_index(&self, hrow: usize, hcol: usize) -> (r: u8)
        requires
            hrow < DISPLAY_HEIGHT / 2,
            hcol < DISPLAY_WIDTH / 2,
        ensures
            r == (if self@[(2 * hrow) * 64 + 2 * hcol] {
                1int
            } else {
                0int
            }) + (if self@[(2 * hrow) * 64 + 2 * hcol + 1] {
                2int
            } else {
                0int
            }) + (if self@[(2 * hrow + 1) * 64 + 2 * hcol] {
                4int
            } else {
                0int
            }) + (if self@[(2 * hrow + 1) * 64 + 2 * hcol + 1] {
                8int
            } else {
                0int
            }),
    {
        let mut block_index: u8 = 0;
        if self.pixels[(2 * hrow) * DISPLAY_WIDTH + 2 * hcol] {
            block_index = block_index + 1;
        }
        if self.pixels[(2 * hrow) * DISPLAY_WIDTH + 2 * hcol + 1] {
            block_index = block_index + 2;
        }
        if self.pixels[(2 * hrow + 1) * DISPLAY_WIDTH + 2 * hcol] {
            block_index = block_index + 4;
        }
        if self.pixels[(2 * hrow + 1) * DISPLAY_WIDTH + 2 * hcol + 1] {
            block_index = block_index + 8;
        }
        block_index
    }
}

impl Chip8Display for FrameBuffer {
    fn new() -> (r: Self)
        ensures
            r@ == Seq::new(DISPLAY_PIXELS as nat, |p: int| false),
    {
        FrameBuffer::blank()
    }

    fn clear(&mut self) -> (r: std::io::Result<()>)
        ensures
            r is Ok,
            final(self)@ == Seq::new(DISPLAY_PIXELS as nat, |p: int| false),
    {
        self.clear_pixels();
        Ok(())
    }

    fn draw(&mut self, x: u8, y: u8, data: &[u8]) -> (r: std::io::Result<bool>)
        ensures
            r matches Ok(c) && c == collides(old(self)@, x, y, data@),
            final(self)@ == draw_spec(old(self)@, x, y, data@),
    {
        Ok(self.draw_sprite(x, y, data))
    }

    fn flush(&mut self) -> (r: std::io::Result<()>)
        ensures
            r is Ok,
            final(self)@ == old(self)@,
    {
        Ok(())
    }
}

/// Drawing the same sprite at the same place twice in a row gives back the
/// bitmap as it was, and the second draw reports a collision exactly when the
/// first one lit a pixel.
pub proof fn lemma_draw_twice(f: Seq<bool>, x: u8, y: u8, data: Seq<u8>)
    ensures
        draw_spec(draw_spec(f, x, y, data), x, y, data) == f,
        collides(draw_spec(f, x, y, data), x, y, data) == lights(f, x, y, data),
{
    let once = draw_spec(f, x, y, data);
    assert(draw_spec(once, x, y, data) =~= f);
    if collides(once, x, y, data) {
        let p = choose|p: int| 0 <= p < once.len() && #[trigger] once[p] && flips(x, y, data, p);
        assert(!f[p]);
    }
    if lights(f, x, y, data) {
        let p = choose|p: int| 0 <= p < f.len() && !#[trigger] f[p] && flips(x, y, data, p);
        assert(once[p]);
    }
}

} // verus!
