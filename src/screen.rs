//! The 64x32 monochrome display with XOR sprite compositing.
use vstd::prelude::*;
use vstd::slice::slice_subrange;

verus! {

pub const WIDTH: u16 = 64;
pub const HEIGHT: u16 = 32;
pub const SIZE: u16 = 2048;

/// One byte per pixel, row by row; each byte is 0 (unlit) or 1 (lit).
pub struct Screen {
    screen: Vec<u8>,
}

impl View for Screen {
    type V = Seq<u8>;

    closed spec fn view(&self) -> Seq<u8> {
        self.screen@
    }
}

/// Position of pixel `(x, y)` in the row-by-row pixel sequence.
pub open spec fn pixel_index(x: int, y: int) -> int {
    x + y * (WIDTH as int)
}

/// Whether column `col` (0 is leftmost) of a sprite row is set: the most
/// significant bit is the leftmost pixel.
pub open spec fn row_bit(row: u8, col: int) -> bool {
    0 <= col < 8 && (row & (0x80u8 >> (col as u8))) != 0
}

/// Whether a sprite anchored at `(x0, y0)` sets pixel `(px, py)`.
pub open spec fn covers(sprite: Seq<u8>, x0: int, y0: int, px: int, py: int) -> bool {
    y0 <= py < y0 + sprite.len() && row_bit(sprite[py - y0], px - x0)
}

/// Whether the sprite covers the pixel at position `i` of the grid.
pub open spec fn covers_index(sprite: Seq<u8>, x0: int, y0: int, i: int) -> bool {
    covers(sprite, x0, y0, i % (WIDTH as int), i / (WIDTH as int))
}

/// The grid `s` after XOR-compositing `sprite` with its top-left corner at
/// `(x0, y0)`; parts of the sprite beyond the right or bottom edge are dropped.
pub open spec fn drawn(s: Seq<u8>, sprite: Seq<u8>, x0: int, y0: int) -> Seq<u8> {
    Seq::new(s.len(), |i: int| if covers_index(sprite, x0, y0, i) { s[i] ^ 1u8 } else { s[i] })
}

/// Whether compositing the sprite turns some lit pixel of `s` off.
pub open spec fn collides(s: Seq<u8>, sprite: Seq<u8>, x0: int, y0: int) -> bool {
    exists|i: int| 0 <= i < s.len() && #[trigger] covers_index(sprite, x0, y0, i) && s[i] == 1
}

/// A grid of `SIZE` pixels, each 0 or 1.
pub open spec fn valid_grid(s: Seq<u8>) -> bool {
    s.len() == SIZE && forall|i: int| 0 <= i < s.len() ==> #[trigger] s[i] <= 1
}

/// The anchor of a sprite drawn at `(x, y)`: both reduced modulo the grid.
pub open spec fn anchor(x: u16, y: u16) -> (int, int) {
    ((x % WIDTH) as int, (y % HEIGHT) as int)
}

/// Drawing the same sprite twice at the same place restores the grid, and
/// the second drawing collides exactly when the first one lit some pixel.
pub proof fn lemma_double_draw(s: Seq<u8>, sprite: Seq<u8>, x: u16, y: u16)
    requires
        valid_grid(s),
    ensures
        drawn(drawn(s, sprite, anchor(x, y).0, anchor(x, y).1), sprite, anchor(x, y).0, anchor(x, y).1) == s,
        collides(drawn(s, sprite, anchor(x, y).0, anchor(x, y).1), sprite, anchor(x, y).0, anchor(x, y).1)
            <==> exists|i: int| 0 <= i < s.len() && #[trigger] covers_index(sprite, anchor(x, y).0, anchor(x, y).1, i) && s[i] == 0,
{
    let (x0, y0) = anchor(x, y);
    let d = drawn(s, sprite, x0, y0);
    assert forall|i: int| 0 <= i < s.len() implies drawn(d, sprite, x0, y0)[i] == s[i] by {
        let v = s[i];
        assert((v ^ 1u8) ^ 1u8 == v) by (bit_vector);
    }
    assert(drawn(d, sprite, x0, y0) =~= s);
    if collides(d, sprite, x0, y0) {
        let i = choose|i: int| 0 <= i < d.len() && #[trigger] covers_index(sprite, x0, y0, i) && d[i] == 1;
        let v = s[i];
        assert((v ^ 1u8) == 1 ==> v == 0) by (bit_vector);
    }
    if exists|i: int| 0 <= i < s.len() && #[trigger] covers_index(sprite, x0, y0, i) && s[i] == 0 {
        let i = choose|i: int| 0 <= i < s.len() && #[trigger] covers_index(sprite, x0, y0, i) && s[i] == 0;
        let v = s[i];
        assert(v == 0 ==> (v ^ 1u8) == 1) by (bit_vector);
        assert(d[i] == 1);
    }
}

/// Whether the sprite covers grid position `i` and the compositing has
/// reached it: rows before `line` are done, and in row `line` the columns
/// before `bit`.
spec fn covers_upto(sprite: Seq<u8>, x0: int, y0: int, line: int, bit: int, i: int) -> bool {
    &&& covers_index(sprite, x0, y0, i)
    &&& (i / (WIDTH as int) - y0 < line || (i / (WIDTH as int) - y0 == line && i % (WIDTH as int) - x0 < bit))
}

spec fn drawn_upto(s: Seq<u8>, sprite: Seq<u8>, x0: int, y0: int, line: int, bit: int) -> Seq<u8> {
    Seq::new(s.len(), |i: int| if covers_upto(sprite, x0, y0, line, bit, i) { s[i] ^ 1u8 } else { s[i] })
}

spec fn collides_upto(s: Seq<u8>, sprite: Seq<u8>, x0: int, y0: int, line: int, bit: int) -> bool {
    exists|i: int| 0 <= i < s.len() && #[trigger] covers_upto(sprite, x0, y0, line, bit, i) && s[i] == 1
}

proof fn lemma_index_coords(px: int, py: int)
    requires
        0 <= px < WIDTH,
        0 <= py < HEIGHT,
    ensures
        pixel_index(px, py) % (WIDTH as int) == px,
        pixel_index(px, py) / (WIDTH as int) == py,
        0 <= pixel_index(px, py) < SIZE,
{
    vstd::arithmetic::div_mod::lemma_fundamental_div_mod_converse(pixel_index(px, py), WIDTH as int, py, px);
}

proof fn lemma_coords_index(i: int)
    requires
        0 <= i < SIZE,
    ensures
        i == pixel_index(i % (WIDTH as int), i / (WIDTH as int)),
        0 <= i % (WIDTH as int) < WIDTH,
        0 <= i / (WIDTH as int) < HEIGHT,
{
    vstd::arithmetic::div_mod::lemma_fundamental_div_mod(i, WIDTH as int);
}

/// One column step of the compositing loop.
proof fn lemma_step(
    s: Seq<u8>,
    before: Seq<u8>,
    after: Seq<u8>,
    ret_before: bool,
    ret_after: bool,
    sprite: Seq<u8>,
    x0: int,
    y0: int,
    line: int,
    bit: int,
)
    requires
        valid_grid(s),
        0 <= x0 < WIDTH,
        0 <= y0 < HEIGHT,
        0 <= line < sprite.len(),
        0 <= bit < 8,
        before == drawn_upto(s, sprite, x0, y0, line, bit),
        ret_before == collides_upto(s, sprite, x0, y0, line, bit),
        ({
            let px = x0 + bit;
            let py = y0 + line;
            let inside = row_bit(sprite[line], bit) && px < WIDTH && py < HEIGHT;
            &&& inside ==> after == before.update(pixel_index(px, py), before[pixel_index(px, py)] ^ 1u8)
            &&& inside ==> ret_after == (ret_before || before[pixel_index(px, py)] == 1)
            &&& !inside ==> after == before && ret_after == ret_before
        }),
    ensures
        after == drawn_upto(s, sprite, x0, y0, line, bit + 1),
        ret_after == collides_upto(s, sprite, x0, y0, line, bit + 1),
{
    let px = x0 + bit;
    let py = y0 + line;
    let inside = row_bit(sprite[line], bit) && px < WIDTH && py < HEIGHT;
    let next = drawn_upto(s, sprite, x0, y0, line, bit + 1);
    assert forall|i: int| 0 <= i < s.len() implies
        (covers_upto(sprite, x0, y0, line, bit + 1, i) <==> covers_upto(sprite, x0, y0, line, bit, i)
            || (inside && i == pixel_index(px, py))) by {
        lemma_coords_index(i);
        if inside {
            lemma_index_coords(px, py);
        }
    }
    if inside {
        lemma_index_coords(px, py);
        let k = pixel_index(px, py);
        assert(!covers_upto(sprite, x0, y0, line, bit, k));
        assert(after =~= next);
        if ret_after {
            if !ret_before {
                assert(covers_upto(sprite, x0, y0, line, bit + 1, k));
            }
        }
        if collides_upto(s, sprite, x0, y0, line, bit + 1) {
            let i = choose|i: int| 0 <= i < s.len() && #[trigger] covers_upto(sprite, x0, y0, line, bit + 1, i) && s[i] == 1;
            if i != k {
                assert(covers_upto(sprite, x0, y0, line, bit, i));
            }
        }
    } else {
        assert(after =~= next);
        if collides_upto(s, sprite, x0, y0, line, bit + 1) {
            let i = choose|i: int| 0 <= i < s.len() && #[trigger] covers_upto(sprite, x0, y0, line, bit + 1, i) && s[i] == 1;
            assert(covers_upto(sprite, x0, y0, line, bit, i));
        }
    }
}

/// Finishing column 8 of a row is starting column 0 of the next one.
proof fn lemma_next_line(s: Seq<u8>, sprite: Seq<u8>, x0: int, y0: int, line: int)
    ensures
        drawn_upto(s, sprite, x0, y0, line, 8) == drawn_upto(s, sprite, x0, y0, line + 1, 0),
        collides_upto(s, sprite, x0, y0, line, 8) == collides_upto(s, sprite, x0, y0, line + 1, 0),
{
    assert forall|i: int| covers_upto(sprite, x0, y0, line, 8, i) == covers_upto(sprite, x0, y0, line + 1, 0, i) by {}
    assert(drawn_upto(s, sprite, x0, y0, line, 8) =~= drawn_upto(s, sprite, x0, y0, line + 1, 0));
    if collides_upto(s, sprite, x0, y0, line, 8) {
        let i = choose|i: int| 0 <= i < s.len() && #[trigger] covers_upto(sprite, x0, y0, line, 8, i) && s[i] == 1;
        assert(covers_upto(sprite, x0, y0, line + 1, 0, i));
    }
    if collides_upto(s, sprite, x0, y0, line + 1, 0) {
        let i = choose|i: int| 0 <= i < s.len() && #[trigger] covers_upto(sprite, x0, y0, line + 1, 0, i) && s[i] == 1;
        assert(covers_upto(sprite, x0, y0, line, 8, i));
    }
}

/// Once every row is done, the partial compositing is the whole one.
proof fn lemma_finished(s: Seq<u8>, sprite: Seq<u8>, x0: int, y0: int)
    ensures
        drawn_upto(s, sprite, x0, y0, sprite.len() as int, 0) == drawn(s, sprite, x0, y0),
        collides_upto(s, sprite, x0, y0, sprite.len() as int, 0) == collides(s, sprite, x0, y0),
{
    assert forall|i: int| covers_upto(sprite, x0, y0, sprite.len() as int, 0, i) == covers_index(sprite, x0, y0, i) by {}
    assert(drawn_upto(s, sprite, x0, y0, sprite.len() as int, 0) =~= drawn(s, sprite, x0, y0));
    if collides_upto(s, sprite, x0, y0, sprite.len() as int, 0) {
        let i = choose|i: int| 0 <= i < s.len() && #[trigger] covers_upto(sprite, x0, y0, sprite.len() as int, 0, i) && s[i] == 1;
        assert(covers_index(sprite, x0, y0, i));
    }
    if collides(s, sprite, x0, y0) {
        let i = choose|i: int| 0 <= i < s.len() && #[trigger] covers_index(sprite, x0, y0, i) && s[i] == 1;
        assert(covers_upto(sprite, x0, y0, sprite.len() as int, 0, i));
    }
}

impl Default for Screen {
    fn default() -> (s: Self)
        ensures
            s.wf(),
            s@ == Seq::new(SIZE as nat, |i: int| 0u8),
    {
        let s = Screen { screen: vec![0u8; SIZE as usize] };
        assert(s@ =~= Seq::new(SIZE as nat, |i: int| 0u8));
        s
    }
}

impl Screen {
    pub open spec fn wf(&self) -> bool {
        valid_grid(self@)
    }

    /// Turns every pixel off.
    pub fn reset(&mut self)
        requires
            old(self).wf(),
        ensures
            final(self).wf(),
            final(self)@ == Seq::new(SIZE as nat, |i: int| 0u8),
    {
        self.screen = vec![0u8; SIZE as usize];
        assert(self@ =~= Seq::new(SIZE as nat, |i: int| 0u8));
    }

    fn index(x: u16, y: u16) -> (r: usize)
        requires
            x < WIDTH,
            y < HEIGHT,
        ensures
            r == pixel_index(x as int, y as int),
            r < SIZE,
    {
        (x + y * WIDTH) as usize
    }

    /// The pixel at column `x` of row `y`: 1 if lit, 0 if not.
    pub fn get_pixel(&self, x: u16, y: u16) -> (r: u8)
        requires
            self.wf(),
            x < WIDTH,
            y < HEIGHT,
        ensures
            r == self@[pixel_index(x as int, y as int)],
    {
        self.screen[Self::index(x, y)]
    }

    /// Flips the pixel at `(x, y)`; returns whether it was lit before.
    pub fn toggle_pixel(&mut self, x: u16, y: u16) -> (r: bool)
        requires
            old(self).wf(),
            x < WIDTH,
            y < HEIGHT,
        ensures
            final(self).wf(),
            final(self)@ == old(self)@.update(
                pixel_index(x as int, y as int),
                old(self)@[pixel_index(x as int, y as int)] ^ 1u8,
            ),
            r == (old(self)@[pixel_index(x as int, y as int)] == 1),
    {
        let i = Self::index(x, y);
        let v = self.screen[i];
        let ret = v == 1;
        assert(v <= 1 ==> (v ^ 1u8) <= 1) by (bit_vector);
        self.screen.set(i, v ^ 1);
        ret
    }

    /// Composites `sprite` (one byte per row, most significant bit leftmost)
    /// at `(x mod WIDTH, y mod HEIGHT)` by XOR, dropping what falls beyond the
    /// right or bottom edge. Returns whether a lit pixel was turned off.
    pub fn draw_sprite(&mut self, x: u16, y: u16, sprite: &[u8]) -> (r: bool)
        requires
            old(self).wf(),
        ensures
            final(self).wf(),
            final(self)@ == drawn(old(self)@, sprite@, anchor(x, y).0, anchor(x, y).1),
            r == collides(old(self)@, sprite@, anchor(x, y).0, anchor(x, y).1),
    {
        let mut ret = false;
        let x = x % WIDTH;
        let y = y % HEIGHT;
        let mut line: usize = 0;
        while line < sprite.len()
            invariant
                self.wf(),
                old(self).wf(),
                0 <= line <= sprite@.len(),
                x < WIDTH,
                y < HEIGHT,
                self@ == drawn_upto(old(self)@, sprite@, x as int, y as int, line as int, 0),
                ret == collides_upto(old(self)@, sprite@, x as int, y as int, line as int, 0),
            decreases sprite@.len() - line,
        {
            let pixel = sprite[line];
            let mut bit: u16 = 0;
            while bit < 8
                invariant
                    self.wf(),
                    old(self).wf(),
                    0 <= line < sprite@.len(),
                    pixel == sprite@[line as int],
                    x < WIDTH,
                    y < HEIGHT,
                    0 <= bit <= 8,
                    self@ == drawn_upto(old(self)@, sprite@, x as int, y as int, line as int, bit as int),
                    ret == collides_upto(old(self)@, sprite@, x as int, y as int, line as int, bit as int),
                decreases 8 - bit,
            {
                let ghost before = self@;
                let ghost ret_before = ret;
                if pixel & (0x80u8 >> (bit as u8)) != 0 && x + bit < WIDTH && line
                    < (HEIGHT - y) as usize {
                    let py = y + line as u16;
                    proof {
                        lemma_index_coords((x + bit) as int, py as int);
                    }
                    if self.toggle_pixel(x + bit, py) {
                        ret = true;
                    }
                }
                proof {
                    lemma_step(old(self)@, before, self@, ret_before, ret, sprite@, x as int, y as int, line as int, bit as int);
                }
                bit = bit + 1;
            }
            proof {
                lemma_next_line(old(self)@, sprite@, x as int, y as int, line as int);
            }
            line = line + 1;
        }
        proof {
            lemma_finished(old(self)@, sprite@, x as int, y as int);
        }
        ret
    }

    /// The whole grid, row by row, one byte (0 or 1) per pixel.
    pub fn get_pixel_data(&self) -> (r: &[u8])
        requires
            self.wf(),
        ensures
            r@ == self@,
    {
        self.screen.as_slice()
    }
}

} // verus!
