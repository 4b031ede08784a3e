//! The 64x32 monochrome framebuffer: sprites are combined with the screen by
//! exclusive or, coordinates wrap around at both edges, and a flag records
//! that the screen has changed since it was last presented.

use vstd::prelude::*;

verus! {

/// Number of pixel rows.
pub const DISPLAY_HEIGHT: usize = 32;

/// Number of pixel columns.
pub const DISPLAY_WIDTH: usize = 64;

/// The framebuffer. `pixels[y][x]` is the pixel in row `y`, column `x`.
#[derive(Clone, Copy)]
pub struct Display {
    pub pixels: [[bool; 64]; 32],
    pub changed: bool,
}

/// Mathematical model of a [`Display`]: 32 rows of 64 pixels, and the flag.
pub struct DisplayView {
    pub pixels: Seq<Seq<bool>>,
    pub changed: bool,
}

impl View for Display {
    type V = DisplayView;

    open spec fn view(&self) -> DisplayView {
        DisplayView { pixels: Seq::new(32, |y: int| self.pixels[y]@), changed: self.changed }
    }
}

/// Whether bit `j` of a sprite row is set. Bit 0 is the most significant bit,
/// which is the leftmost pixel of the row.
pub open spec fn sprite_bit(row: u8, j: int) -> bool {
    0 <= j < 8 && row & (0x80u8 >> (j as u8)) != 0
}

/// Whether row `i` of a sprite placed at `(x, y)` has a set bit on the pixel
/// `(px, py)`. Row `i` lies on screen row `(y + i) mod 32`, and its bit `j` on
/// column `(x + j) mod 64`.
pub open spec fn row_hits(x: int, y: int, i: int, row: u8, px: int, py: int) -> bool {
    (y + i) % 32 == py && sprite_bit(row, (px - x) % 64)
}

/// Whether the first `n` rows of `sprite`, placed at `(x, y)`, hit the pixel
/// `(px, py)` an odd number of times. A sprite of more than 32 rows wraps
/// onto rows that it has already touched, so a pixel can be hit more than once.
pub open spec fn flips(x: int, y: int, sprite: Seq<u8>, n: int, px: int, py: int) -> bool
    decreases n,
{
    if n <= 0 {
        false
    } else {
        flips(x, y, sprite, n - 1, px, py) != row_hits(x, y, n - 1, sprite[n - 1], px, py)
    }
}

impl DisplayView {
    /// The shape of every view of a [`Display`].
    pub open spec fn wf(self) -> bool {
        &&& self.pixels.len() == 32
        &&& forall|y: int| 0 <= y < 32 ==> (#[trigger] self.pixels[y]).len() == 64
    }

    /// The pixel in column `x` of row `y`.
    pub open spec fn lit(self, x: int, y: int) -> bool {
        self.pixels[y][x]
    }

    /// The screen with every pixel off, marked as changed.
    pub open spec fn blank() -> DisplayView {
        DisplayView { pixels: Seq::new(32, |y: int| Seq::new(64, |x: int| false)), changed: true }
    }

    /// The screen after the first `n` rows of `sprite` were drawn at `(x, y)`:
    /// a pixel changes exactly if the sprite hits it an odd number of times.
    pub open spec fn drawn(self, x: int, y: int, n: int, sprite: Seq<u8>) -> DisplayView {
        DisplayView {
            pixels: Seq::new(
                32,
                |py: int|
                    Seq::new(64, |px: int| self.lit(px, py) != flips(x, y, sprite, n, px, py)),
            ),
            changed: true,
        }
    }

    /// Whether bit `j` of row `i` turns a lit pixel off when `sprite` is drawn
    /// at `(x, y)` row by row: the bit is set, and the pixel under it is lit
    /// once the rows before `i` have been drawn.
    pub open spec fn erases(self, x: int, y: int, sprite: Seq<u8>, i: int, j: int) -> bool {
        let px = (x + j) % 64;
        let py = (y + i) % 32;
        sprite_bit(sprite[i], j) && (self.lit(px, py) != flips(x, y, sprite, i, px, py))
    }

    /// Whether drawing the first `n` rows of `sprite` at `(x, y)` turns any
    /// lit pixel off.
    pub open spec fn collides(self, x: int, y: int, n: int, sprite: Seq<u8>) -> bool {
        exists|i: int, j: int|
            0 <= i < n && 0 <= j < 8 && #[trigger] self.erases(x, y, sprite, i, j)
    }

    /// Whether a bit that comes before bit `j` of row `i`, in drawing order,
    /// turns a lit pixel off.
    spec fn collides_before(self, x: int, y: int, sprite: Seq<u8>, i: int, j: int) -> bool {
        exists|i1: int, j1: int|
            0 <= i1 && 0 <= j1 < 8 && (i1 < i || (i1 == i && j1 < j)) && #[trigger] self.erases(
                x,
                y,
                sprite,
                i1,
                j1,
            )
    }
}

/// Whether one of the first `j` bits of row `i` of a sprite placed at `(x, y)`
/// is set and lies on the pixel `(px, py)`.
spec fn row_hits_before(x: int, y: int, i: int, row: u8, j: int, px: int, py: int) -> bool {
    (y + i) % 32 == py && (px - x) % 64 < j && sprite_bit(row, (px - x) % 64)
}

impl Display {
    /// A blank screen, marked as changed so that it is presented once.
    pub fn new() -> (display: Display)
        ensures
            display@ == DisplayView::blank(),
    {
        let display = Display { pixels: [[false; DISPLAY_WIDTH]; DISPLAY_HEIGHT], changed: true };
        assert(display@.pixels =~~= DisplayView::blank().pixels);
        display
    }

    /// Draws the first `n` rows of `sprite` with its top left corner at
    /// `(x, y)`, and returns whether any lit pixel was turned off.
    pub fn draw(&mut self, x: usize, y: usize, n: usize, sprite: &[u8]) -> (collision: bool)
        requires
            n <= sprite@.len(),
        ensures
            final(self)@ == old(self)@.drawn(x as int, y as int, n as int, sprite@),
            collision == old(self)@.collides(x as int, y as int, n as int, sprite@),
    {
        let ghost before = self@;
        let ghost xi = x as int;
        let ghost yi = y as int;
        let mut pixels_cleared: bool = false;
        let mut i: usize = 0;
        while i < n
            invariant
                i <= n <= sprite@.len(),
                xi == x,
                yi == y,
                before == old(self)@,
                forall|px: int, py: int|
                    0 <= px < 64 && 0 <= py < 32 ==> #[trigger] self.pixels[py][px] == (before.lit(
                        px,
                        py,
                    ) != flips(xi, yi, sprite@, i as int, px, py)),
                pixels_cleared == before.collides_before(xi, yi, sprite@, i as int, 0),
            decreases n - i,
        {
            let row: u8 = sprite[i];
            let y_coord: usize = (i % DISPLAY_HEIGHT + y % DISPLAY_HEIGHT) % DISPLAY_HEIGHT;
            let mut j: usize = 0;
            while j < 8
                invariant
                    j <= 8,
                    i < n <= sprite@.len(),
                    xi == x,
                    yi == y,
                    row == sprite@[i as int],
                    y_coord == (yi + i) % 32,
                    forall|px: int, py: int|
                        0 <= px < 64 && 0 <= py < 32 ==> #[trigger] self.pixels[py][px] == ((
                        before.lit(px, py) != flips(xi, yi, sprite@, i as int, px, py))
                            != row_hits_before(xi, yi, i as int, row, j as int, px, py)),
                    pixels_cleared == before.collides_before(xi, yi, sprite@, i as int, j as int),
                decreases 8 - j,
            {
                let x_coord: usize = (j + x % DISPLAY_WIDTH) % DISPLAY_WIDTH;
                let pixel_value: bool = row & (0x80u8 >> (j as u8)) != 0;
                proof {
                    assert(x_coord == (xi + j) % 64);
                    assert((x_coord - xi) % 64 == j);
                    assert(pixel_value == sprite_bit(row, j as int));
                    assert(!row_hits_before(xi, yi, i as int, row, j as int, x_coord as int, y_coord as int));
                    assert(self.pixels[y_coord as int][x_coord as int] == (before.lit(
                        x_coord as int,
                        y_coord as int,
                    ) != flips(xi, yi, sprite@, i as int, x_coord as int, y_coord as int)));
                    lemma_collides_step(before, xi, yi, sprite@, i as int, j as int);
                }
                if pixel_value && self.pixels[y_coord][x_coord] {
                    pixels_cleared = true;
                }
                let ghost prev = self.pixels;
                self.pixels[y_coord][x_coord] ^= pixel_value;
                proof {
                    assert forall|px: int, py: int| 0 <= px < 64 && 0 <= py < 32 implies
                        #[trigger] self.pixels[py][px] == ((before.lit(px, py) != flips(
                        xi,
                        yi,
                        sprite@,
                        i as int,
                        px,
                        py,
                    )) != row_hits_before(xi, yi, i as int, row, j + 1, px, py)) by {
                        assert(prev[py][px] == ((before.lit(px, py) != flips(
                            xi,
                            yi,
                            sprite@,
                            i as int,
                            px,
                            py,
                        )) != row_hits_before(xi, yi, i as int, row, j as int, px, py)));
                        if px == x_coord && py == y_coord {
                        } else {
                            assert(self.pixels[py][px] == prev[py][px]);
                            assert((px - xi) % 64 != j || py != y_coord);
                        }
                    }
                }
                j += 1;
            }
            proof {
                lemma_collides_next_row(before, xi, yi, sprite@, i as int);
                assert forall|px: int, py: int| 0 <= px < 64 && 0 <= py < 32 implies
                    #[trigger] self.pixels[py][px] == (before.lit(px, py) != flips(
                    xi,
                    yi,
                    sprite@,
                    i + 1,
                    px,
                    py,
                )) by {
                    assert(row_hits_before(xi, yi, i as int, row, 8, px, py) == row_hits(
                        xi,
                        yi,
                        i as int,
                        row,
                        px,
                        py,
                    ));
                }
            }
            i += 1;
        }
        self.changed = true;
        proof {
            lemma_collides_all(before, xi, yi, n as int, sprite@);
            assert(self@.pixels =~~= before.drawn(xi, yi, n as int, sprite@).pixels);
        }
        pixels_cleared
    }

    /// Turns every pixel off and marks the screen as changed.
    pub fn clear(&mut self)
        ensures
            final(self)@ == DisplayView::blank(),
    {
        self.pixels = [[false; DISPLAY_WIDTH]; DISPLAY_HEIGHT];
        self.changed = true;
        assert(self@.pixels =~~= DisplayView::blank().pixels);
    }

    /// The pixel in column `x` of row `y`.
    pub fn get_pixel(self, x: usize, y: usize) -> (lit: bool)
        requires
            x < 64,
            y < 32,
        ensures
            lit == self@.lit(x as int, y as int),
    {
        self.pixels[y][x]
    }
}

/// Taking bit `j` of row `i` into account extends the collisions found so far
/// by that bit's own.
proof fn lemma_collides_step(d: DisplayView, x: int, y: int, sprite: Seq<u8>, i: int, j: int)
    requires
        0 <= i,
        0 <= j < 8,
    ensures
        d.collides_before(x, y, sprite, i, j + 1) == (d.collides_before(x, y, sprite, i, j)
            || d.erases(x, y, sprite, i, j)),
{
    if d.collides_before(x, y, sprite, i, j + 1) {
        let (i1, j1) = choose|i1: int, j1: int|
            0 <= i1 && 0 <= j1 < 8 && (i1 < i || (i1 == i && j1 < j + 1)) && #[trigger] d.erases(
                x,
                y,
                sprite,
                i1,
                j1,
            );
        if i1 == i && j1 == j {
        } else {
            assert(d.erases(x, y, sprite, i1, j1));
        }
    }
    if d.collides_before(x, y, sprite, i, j) {
        let (i1, j1) = choose|i1: int, j1: int|
            0 <= i1 && 0 <= j1 < 8 && (i1 < i || (i1 == i && j1 < j)) && #[trigger] d.erases(
                x,
                y,
                sprite,
                i1,
                j1,
            );
        assert(d.erases(x, y, sprite, i1, j1));
    }
    if d.erases(x, y, sprite, i, j) {
    }
}

/// Every bit of row `i` comes before the first bit of row `i + 1`.
proof fn lemma_collides_next_row(d: DisplayView, x: int, y: int, sprite: Seq<u8>, i: int)
    requires
        0 <= i,
    ensures
        d.collides_before(x, y, sprite, i, 8) == d.collides_before(x, y, sprite, i + 1, 0),
{
    if d.collides_before(x, y, sprite, i, 8) {
        let (i1, j1) = choose|i1: int, j1: int|
            0 <= i1 && 0 <= j1 < 8 && (i1 < i || (i1 == i && j1 < 8)) && #[trigger] d.erases(
                x,
                y,
                sprite,
                i1,
                j1,
            );
        assert(d.erases(x, y, sprite, i1, j1));
    }
    if d.collides_before(x, y, sprite, i + 1, 0) {
        let (i1, j1) = choose|i1: int, j1: int|
            0 <= i1 && 0 <= j1 < 8 && (i1 < i + 1 || (i1 == i + 1 && j1 < 0)) && #[trigger] d.erases(
                x,
                y,
                sprite,
                i1,
                j1,
            );
        assert(d.erases(x, y, sprite, i1, j1));
    }
}

/// The bits before row `n` are the bits of the first `n` rows.
proof fn lemma_collides_all(d: DisplayView, x: int, y: int, n: int, sprite: Seq<u8>)
    requires
        0 <= n,
    ensures
        d.collides_before(x, y, sprite, n, 0) == d.collides(x, y, n, sprite),
{
    if d.collides_before(x, y, sprite, n, 0) {
        let (i1, j1) = choose|i1: int, j1: int|
            0 <= i1 && 0 <= j1 < 8 && (i1 < n || (i1 == n && j1 < 0)) && #[trigger] d.erases(
                x,
                y,
                sprite,
                i1,
                j1,
            );
        assert(d.erases(x, y, sprite, i1, j1));
    }
    if d.collides(x, y, n, sprite) {
        let (i1, j1) = choose|i1: int, j1: int|
            0 <= i1 < n && 0 <= j1 < 8 && #[trigger] d.erases(x, y, sprite, i1, j1);
        assert(d.erases(x, y, sprite, i1, j1));
    }
}

/// If the first `n` rows flip a pixel, then one of them is the first to hit
/// it: no row before it flips the pixel.
proof fn lemma_first_hit(x: int, y: int, sprite: Seq<u8>, n: int, px: int, py: int) -> (i: int)
    requires
        flips(x, y, sprite, n, px, py),
    ensures
        0 <= i < n,
        row_hits(x, y, i, sprite[i], px, py),
        !flips(x, y, sprite, i, px, py),
    decreases n,
{
    if flips(x, y, sprite, n - 1, px, py) {
        lemma_first_hit(x, y, sprite, n - 1, px, py)
    } else {
        n - 1
    }
}

/// A sprite of at most 32 rows meets every screen row at most once, so a
/// pixel `(px, py)` flips exactly if the one sprite row that lies on screen
/// row `py` has a set bit on column `px`.
pub proof fn lemma_flips_single_pass(x: int, y: int, sprite: Seq<u8>, n: int, px: int, py: int)
    requires
        0 <= n <= 32,
        0 <= py < 32,
    ensures
        flips(x, y, sprite, n, px, py) == ({
            let i = (py - y) % 32;
            i < n && sprite_bit(sprite[i], (px - x) % 64)
        }),
    decreases n,
{
    if n > 0 {
        lemma_flips_single_pass(x, y, sprite, n - 1, px, py);
    }
}

/// Drawing the same rows at the same place twice in succession restores
/// every pixel.
pub proof fn lemma_draw_twice_restores(d: DisplayView, x: int, y: int, n: int, sprite: Seq<u8>)
    requires
        d.wf(),
    ensures
        d.drawn(x, y, n, sprite).drawn(x, y, n, sprite).pixels == d.pixels,
{
    assert(d.drawn(x, y, n, sprite).drawn(x, y, n, sprite).pixels =~~= d.pixels);
}

/// If a draw lights a pixel that was off, then drawing the same rows at the
/// same place again reports a collision.
pub proof fn lemma_second_draw_collides(
    d: DisplayView,
    x: int,
    y: int,
    n: int,
    sprite: Seq<u8>,
    px: int,
    py: int,
)
    requires
        d.wf(),
        0 <= px < 64,
        0 <= py < 32,
        !d.lit(px, py),
        d.drawn(x, y, n, sprite).lit(px, py),
    ensures
        d.drawn(x, y, n, sprite).collides(x, y, n, sprite),
{
    let i = lemma_first_hit(x, y, sprite, n, px, py);
    let j = (px - x) % 64;
    assert((x + j) % 64 == px);
    assert(d.drawn(x, y, n, sprite).erases(x, y, sprite, i, j));
}

/// Coordinates wrap around: in a sprite of at most 32 rows, bit `j` of row
/// `i` lies on column `(x + j) mod 64` of row `(y + i) mod 32`, and drawing
/// flips that pixel exactly if the bit is set.
pub proof fn lemma_draw_wraps(
    d: DisplayView,
    x: int,
    y: int,
    n: int,
    sprite: Seq<u8>,
    i: int,
    j: int,
)
    requires
        d.wf(),
        0 <= i < n <= 32,
        0 <= j < 8,
    ensures
        d.drawn(x, y, n, sprite).lit((x + j) % 64, (y + i) % 32) == (d.lit(
            (x + j) % 64,
            (y + i) % 32,
        ) != sprite_bit(sprite[i], j)),
{
    let px = (x + j) % 64;
    let py = (y + i) % 32;
    lemma_flips_single_pass(x, y, sprite, n, px, py);
    assert((py - y) % 32 == i);
    assert((px - x) % 64 == j);
}

} // verus!
