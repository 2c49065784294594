//! The display buffer: reading a sprite byte pixel by pixel and combining
//! sprites into the buffer.

use crate::model::{collides, drawn, sprite_at, sprite_bit};
use crate::pixel::Pixel;
use vstd::prelude::*;

verus! {

/// The display as the engine hands it out: 32 rows of 64 pixels.
pub type Display = [[Pixel; 64]; 32];

/// The rows of a display as sequences.
pub open spec fn grid(display: Display) -> Seq<Seq<Pixel>> {
    Seq::new(32, |r: int| display[r]@)
}

/// Walks over the eight pixels of a sprite byte from left to right, that is
/// from the most significant bit down.
pub struct PixIterator {
    byte: u8,
    idx: u8,
}

proof fn lemma_shifted_bit(b: u8, idx: u8)
    by (bit_vector)
    requires
        idx < 8,
    ensures
        (b >> ((7 - idx) as u8)) & 1 <= 1,
        idx == 0 ==> (((b >> ((7 - idx) as u8)) & 1) == 1 <==> (b / 128) % 2 == 1),
        idx == 1 ==> (((b >> ((7 - idx) as u8)) & 1) == 1 <==> (b / 64) % 2 == 1),
        idx == 2 ==> (((b >> ((7 - idx) as u8)) & 1) == 1 <==> (b / 32) % 2 == 1),
        idx == 3 ==> (((b >> ((7 - idx) as u8)) & 1) == 1 <==> (b / 16) % 2 == 1),
        idx == 4 ==> (((b >> ((7 - idx) as u8)) & 1) == 1 <==> (b / 8) % 2 == 1),
        idx == 5 ==> (((b >> ((7 - idx) as u8)) & 1) == 1 <==> (b / 4) % 2 == 1),
        idx == 6 ==> (((b >> ((7 - idx) as u8)) & 1) == 1 <==> (b / 2) % 2 == 1),
        idx == 7 ==> (((b >> ((7 - idx) as u8)) & 1) == 1 <==> b % 2 == 1),
{
}

impl PixIterator {
    /// The byte that is being read.
    pub closed spec fn source(&self) -> u8 {
        self.byte
    }

    /// The number of pixels handed out so far.
    pub closed spec fn position(&self) -> int {
        self.idx as int
    }

    /// Starts at the leftmost pixel of `byte`.
    pub fn new(byte: &u8) -> (it: PixIterator)
        ensures
            it.source() == *byte,
            it.position() == 0,
    {
        PixIterator { byte: *byte, idx: 0 }
    }

    /// The next pixel, white for a set bit, or `None` once all eight have
    /// been handed out.
    pub fn next(&mut self) -> (r: Option<Pixel>)
        ensures
            final(self).source() == old(self).source(),
            old(self).position() < 8 ==> r == Some(
                Pixel::of_bool(sprite_bit(old(self).source(), old(self).position())),
            ) && final(self).position() == old(self).position() + 1,
            old(self).position() >= 8 ==> r is None && final(self).position() == old(
                self,
            ).position(),
    {
        if self.idx < 8 {
            proof {
                lemma_shifted_bit(self.byte, self.idx);
            }
            let bit: u8 = (self.byte >> (7 - self.idx)) & 1;
            self.idx += 1;
            match Pixel::try_from_u8(bit) {
                Ok(px) => Some(px),
                Err(_) => None,
            }
        } else {
            None
        }
    }
}

/// Whether the first `width` pixels of the sprite row `byte`, placed at
/// column `x0`, hit a lit pixel of `row`.
pub open spec fn row_hits(row: Seq<Pixel>, byte: u8, x0: int, width: int) -> bool {
    exists|c: int|
        x0 <= c < x0 + width && c < 64 && (#[trigger] row[c]).lit() && sprite_bit(byte, c - x0)
}

/// The pixel at column `c` of `row` after the first `width` pixels of the
/// sprite row `byte` have been combined into it at column `x0`.
pub open spec fn row_pixel(row: Seq<Pixel>, byte: u8, x0: int, width: int, c: int) -> Pixel {
    Pixel::of_bool(row[c].lit() != (x0 <= c < x0 + width && sprite_bit(byte, c - x0)))
}

/// Combines the sprite row `byte` into row `r` of the display at column
/// `x0`, cutting off what falls beyond the right edge, and says whether a
/// set sprite pixel met a lit pixel.
pub fn blend_row(display: &mut Display, r: usize, x0: usize, byte: u8) -> (hit: bool)
    requires
        r < 32,
        x0 < 64,
    ensures
        forall|other: int| 0 <= other < 32 && other != r ==> final(display)[other] == old(display)[other],
        forall|c: int|
            0 <= c < 64 ==> #[trigger] final(display)[r as int][c] == row_pixel(
                old(display)[r as int]@,
                byte,
                x0 as int,
                8,
                c,
            ),
        hit == row_hits(old(display)[r as int]@, byte, x0 as int, 8),
{
    let ghost before = old(display)[r as int]@;
    let mut bits = PixIterator::new(&byte);
    let mut hit = false;
    let mut j: usize = 0;
    while j < 8 && x0 + j <= 63
        invariant
            r < 32,
            x0 < 64,
            j <= 8,
            bits.position() == j,
            bits.source() == byte,
            before == old(display)[r as int]@,
            forall|other: int| 0 <= other < 32 && other != r ==> display[other] == old(display)[other],
            forall|c: int|
                0 <= c < 64 ==> #[trigger] display[r as int][c] == row_pixel(
                    before,
                    byte,
                    x0 as int,
                    j as int,
                    c,
                ),
            hit == row_hits(before, byte, x0 as int, j as int),
        decreases 8 - j,
    {
        let sprite_px = match bits.next() {
            Some(px) => px,
            None => Pixel::Black,
        };
        let display_px = display[r][x0 + j];
        let ghost row = display[r as int];
        assert(display_px == row_pixel(before, byte, x0 as int, j as int, x0 + j));
        assert(display_px == before[x0 + j]);
        proof {
            let set = sprite_bit(byte, j as int);
            if display_px.lit() && set {
                assert(before[x0 + j].lit() && sprite_bit(byte, (x0 + j) - x0));
                assert(row_hits(before, byte, x0 as int, j + 1));
            } else if row_hits(before, byte, x0 as int, j + 1) {
                let c = choose|c: int|
                    x0 <= c < x0 + (j + 1) && c < 64 && (#[trigger] before[c]).lit() && sprite_bit(
                        byte,
                        c - x0,
                    );
                assert(c != x0 + j);
                assert(row_hits(before, byte, x0 as int, j as int));
            }
            if row_hits(before, byte, x0 as int, j as int) {
                let c = choose|c: int|
                    x0 <= c < x0 + j && c < 64 && (#[trigger] before[c]).lit() && sprite_bit(
                        byte,
                        c - x0,
                    );
                assert(x0 <= c < x0 + (j + 1) && c < 64 && before[c].lit() && sprite_bit(
                    byte,
                    c - x0,
                ));
            }
        }
        if display_px.bitand(sprite_px).to_bool() {
            hit = true;
        }
        display[r][x0 + j] = display_px.bitxor(sprite_px);
        assert forall|c: int| 0 <= c < 64 implies #[trigger] display[r as int][c] == row_pixel(
            before,
            byte,
            x0 as int,
            j + 1,
            c,
        ) by {
            if c != x0 + j {
                assert(display[r as int][c] == row[c]);
            }
        }
        j += 1;
    }
    proof {
        if row_hits(before, byte, x0 as int, 8) {
            let c = choose|c: int|
                x0 <= c < x0 + 8 && c < 64 && (#[trigger] before[c]).lit() && sprite_bit(
                    byte,
                    c - x0,
                );
            assert(x0 <= c < x0 + j && c < 64 && before[c].lit() && sprite_bit(byte, c - x0));
        }
        if row_hits(before, byte, x0 as int, j as int) {
            let c = choose|c: int|
                x0 <= c < x0 + j && c < 64 && (#[trigger] before[c]).lit() && sprite_bit(
                    byte,
                    c - x0,
                );
            assert(x0 <= c < x0 + 8 && c < 64 && before[c].lit() && sprite_bit(byte, c - x0));
        }
    }
    hit
}

/// The pixel at row `r`, column `c` after the first `rows` rows of the sprite
/// have been combined into the display `before`.
spec fn partial_pixel(
    before: Seq<Seq<Pixel>>,
    sprite: Seq<u8>,
    x0: int,
    y0: int,
    rows: int,
    r: int,
    c: int,
) -> Pixel {
    Pixel::of_bool(before[r][c].lit() != (r < y0 + rows && sprite_at(sprite, x0, y0, r, c)))
}

/// Whether one of the first `rows` rows of the sprite hits a lit pixel of
/// the display `before`.
spec fn partial_hits(before: Seq<Seq<Pixel>>, sprite: Seq<u8>, x0: int, y0: int, rows: int) -> bool {
    exists|r: int, c: int|
        0 <= r < 32 && 0 <= c < 64 && r < y0 + rows && (#[trigger] before[r][c]).lit() && sprite_at(
            sprite,
            x0,
            y0,
            r,
            c,
        )
}

/// Combines the `n` sprite bytes at `memory[index..]` into the display by
/// exclusive or, top left corner at column `x0`, row `y0`. What falls beyond
/// the right or the bottom edge is cut off, not wrapped round. Says whether
/// a set sprite pixel met a lit pixel.
pub fn blend_sprite(
    display: &mut Display,
    memory: &[u8; 4096],
    index: usize,
    n: usize,
    x0: usize,
    y0: usize,
) -> (hit: bool)
    requires
        index + n <= 4096,
        x0 < 64,
        y0 < 32,
    ensures
        grid(*final(display)) == drawn(
            grid(*old(display)),
            memory@.subrange(index as int, index + n),
            x0 as int,
            y0 as int,
        ),
        hit == collides(
            grid(*old(display)),
            memory@.subrange(index as int, index + n),
            x0 as int,
            y0 as int,
        ),
{
    let ghost before = grid(*old(display));
    let ghost sprite = memory@.subrange(index as int, index + n);
    let mut hit = false;
    let mut i: usize = 0;
    while i < n && y0 + i <= 31
        invariant
            index + n <= 4096,
            x0 < 64,
            y0 < 32,
            i <= n,
            before == grid(*old(display)),
            sprite == memory@.subrange(index as int, index + n),
            forall|r: int, c: int|
                0 <= r < 32 && 0 <= c < 64 ==> #[trigger] display[r][c] == partial_pixel(
                    before,
                    sprite,
                    x0 as int,
                    y0 as int,
                    i as int,
                    r,
                    c,
                ),
            hit == partial_hits(before, sprite, x0 as int, y0 as int, i as int),
        decreases n - i,
    {
        let byte = memory[index + i];
        let ghost row = y0 + i;
        let ghost current = *display;
        assert(byte == sprite[i as int]);
        let row_hit = blend_row(display, y0 + i, x0, byte);
        proof {
            assert forall|c: int| 0 <= c < 64 implies current[row][c] == before[row][c] by {
                assert(current[row][c] == partial_pixel(
                    before,
                    sprite,
                    x0 as int,
                    y0 as int,
                    i as int,
                    row,
                    c,
                ));
            }
            assert forall|r: int, c: int| 0 <= r < 32 && 0 <= c < 64 implies #[trigger] display[r][c]
                == partial_pixel(before, sprite, x0 as int, y0 as int, i + 1, r, c) by {
                if r == row {
                    assert(display[r][c] == row_pixel(current[row]@, byte, x0 as int, 8, c));
                    assert(current[row]@[c] == before[row][c]);
                } else {
                    assert(display[r] == current[r]);
                    assert(current[r][c] == partial_pixel(
                        before,
                        sprite,
                        x0 as int,
                        y0 as int,
                        i as int,
                        r,
                        c,
                    ));
                }
            }
            if row_hit {
                let c = choose|c: int|
                    x0 <= c < x0 + 8 && c < 64 && (#[trigger] current[row]@[c]).lit() && sprite_bit(
                        byte,
                        c - x0,
                    );
                assert(before[row][c].lit() && sprite_at(sprite, x0 as int, y0 as int, row, c));
                assert(partial_hits(before, sprite, x0 as int, y0 as int, i + 1));
            }
            if hit {
                let (r, c) = choose|r: int, c: int|
                    0 <= r < 32 && 0 <= c < 64 && r < y0 + i && (#[trigger] before[r][c]).lit()
                        && sprite_at(sprite, x0 as int, y0 as int, r, c);
                assert(r < y0 + (i + 1) && before[r][c].lit());
                assert(partial_hits(before, sprite, x0 as int, y0 as int, i + 1));
            }
            if partial_hits(before, sprite, x0 as int, y0 as int, i + 1) {
                let (r, c) = choose|r: int, c: int|
                    0 <= r < 32 && 0 <= c < 64 && r < y0 + (i + 1) && (#[trigger] before[r][c]).lit()
                        && sprite_at(sprite, x0 as int, y0 as int, r, c);
                if r == row {
                    assert(current[row]@[c].lit());
                    assert(row_hits(current[row]@, byte, x0 as int, 8));
                } else {
                    assert(r < y0 + i && before[r][c].lit());
                    assert(partial_hits(before, sprite, x0 as int, y0 as int, i as int));
                }
            }
        }
        if row_hit {
            hit = true;
        }
        i += 1;
    }
    proof {
        let full = drawn(before, sprite, x0 as int, y0 as int);
        assert forall|r: int| 0 <= r < 32 implies #[trigger] grid(*display)[r] =~= full[r] by {
            assert forall|c: int| 0 <= c < 64 implies grid(*display)[r][c] == full[r][c] by {
                assert(display[r][c] == partial_pixel(
                    before,
                    sprite,
                    x0 as int,
                    y0 as int,
                    i as int,
                    r,
                    c,
                ));
            }
        }
        assert(grid(*display) =~= full);
        if hit {
            let (r, c) = choose|r: int, c: int|
                0 <= r < 32 && 0 <= c < 64 && r < y0 + i && (#[trigger] before[r][c]).lit()
                    && sprite_at(sprite, x0 as int, y0 as int, r, c);
            assert(before[r][c].lit() && sprite_at(sprite, x0 as int, y0 as int, r, c));
        }
        if collides(before, sprite, x0 as int, y0 as int) {
            let (r, c) = choose|r: int, c: int|
                0 <= r < 32 && 0 <= c < 64 && (#[trigger] before[r][c]).lit() && sprite_at(
                    sprite,
                    x0 as int,
                    y0 as int,
                    r,
                    c,
                );
            assert(r < y0 + i && before[r][c].lit());
        }
    }
    hit
}

/// Number of bytes in a rendered frame.
pub const FRAME_BYTES: usize = 8192;

/// Channel `k` of a rendered pixel: the three colours are full for white
/// and nothing for black, and the fourth byte, the opacity, is always full.
pub open spec fn channel(px: Pixel, k: int) -> u8 {
    if k == 3 || px.lit() {
        255u8
    } else {
        0u8
    }
}

/// A pixel as four bytes: opaque white or opaque black.
pub fn rgba(px: Pixel) -> (bytes: [u8; 4])
    ensures
        forall|k: int| 0 <= k < 4 ==> bytes[k] == channel(px, k),
{
    match px {
        Pixel::Black => [0, 0, 0, 255],
        Pixel::White => [255, 255, 255, 255],
    }
}

/// The display as the bytes of a frame: row after row, four bytes for each
/// pixel.
pub fn render(display: &Display) -> (frame: Vec<u8>)
    ensures
        frame@.len() == 8192,
        forall|r: int, c: int, k: int|
            0 <= r < 32 && 0 <= c < 64 && 0 <= k < 4 ==> #[trigger] frame@[4 * (64 * r + c) + k]
                == channel(display[r][c], k),
{
    let mut frame: Vec<u8> = Vec::with_capacity(FRAME_BYTES);
    let mut r: usize = 0;
    while r < 32
        invariant
            r <= 32,
            frame@.len() == 256 * r,
            forall|rr: int, c: int, k: int|
                0 <= rr < r && 0 <= c < 64 && 0 <= k < 4 ==> #[trigger] frame@[4 * (64 * rr + c)
                    + k] == channel(display[rr][c], k),
        decreases 32 - r,
    {
        let mut c: usize = 0;
        while c < 64
            invariant
                r < 32,
                c <= 64,
                frame@.len() == 256 * r + 4 * c,
                forall|rr: int, cc: int, k: int|
                    0 <= rr < r && 0 <= cc < 64 && 0 <= k < 4 ==> #[trigger] frame@[4 * (64 * rr
                        + cc) + k] == channel(display[rr][cc], k),
                forall|cc: int, k: int|
                    0 <= cc < c && 0 <= k < 4 ==> #[trigger] frame@[4 * (64 * r + cc) + k]
                        == channel(display[r as int][cc], k),
            decreases 64 - c,
        {
            let bytes = rgba(display[r][c]);
            let ghost before = frame@;
            frame.push(bytes[0]);
            frame.push(bytes[1]);
            frame.push(bytes[2]);
            frame.push(bytes[3]);
            proof {
                let base = 4 * (64 * r + c);
                assert(frame@.len() == base + 4);
                assert forall|i: int| 0 <= i < base implies frame@[i] == before[i] by {}
                assert forall|k: int| 0 <= k < 4 implies frame@[base + k] == channel(
                    display[r as int][c as int],
                    k,
                ) by {}
                assert forall|cc: int, k: int| 0 <= cc < c + 1 && 0 <= k < 4 implies #[trigger] frame@[4
                    * (64 * r + cc) + k] == channel(display[r as int][cc], k) by {
                    if cc < c {
                        assert(frame@[4 * (64 * r + cc) + k] == before[4 * (64 * r + cc) + k]);
                    }
                }
                assert forall|rr: int, cc: int, k: int|
                    0 <= rr < r && 0 <= cc < 64 && 0 <= k < 4 implies #[trigger] frame@[4 * (64 * rr
                    + cc) + k] == channel(display[rr][cc], k) by {
                    assert(frame@[4 * (64 * rr + cc) + k] == before[4 * (64 * rr + cc) + k]);
                }
            }
            c += 1;
        }
        r += 1;
    }
    frame
}

} // verus!
