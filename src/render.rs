use vstd::prelude::*;

use crate::utils::{SCREEN_HEIGHT, SCREEN_WIDTH};

verus! {

/// Largest sprite size; a tile this far off the screen's top-left corner may
/// still show.
pub const SPRITE_MARGIN: i32 = 64;

/// Whether a sprite is drawn rotated along with its object.
#[derive(Clone, Copy, PartialEq, Eq, Debug, Structural)]
pub struct AffineSprite {
    pub enable: bool,
}

/// A sprite drawn as a grid of `rows` by `cols` copies, `x_size` and `y_size`
/// pixels apart.
#[derive(Clone, Copy, PartialEq, Eq, Debug, Structural)]
pub struct RepeatedSprite {
    pub rows: i32,
    pub cols: i32,
    pub x_size: i32,
    pub y_size: i32,
}

impl AffineSprite {
    pub fn enabled() -> (r: AffineSprite)
        ensures
            r.enable,
    {
        AffineSprite { enable: true }
    }
}

impl Default for AffineSprite {
    fn default() -> (r: AffineSprite)
        ensures
            !r.enable,
    {
        AffineSprite { enable: false }
    }
}

impl Default for RepeatedSprite {
    fn default() -> (r: RepeatedSprite)
        ensures
            r == (RepeatedSprite { rows: 1, cols: 1, x_size: 64, y_size: 64 }),
    {
        RepeatedSprite { rows: 1, cols: 1, x_size: 64, y_size: 64 }
    }
}

/// `v` moved into the range of `i32`.
pub open spec fn spec_saturate(v: int) -> i32 {
    if v < i32::MIN {
        i32::MIN
    } else if v > i32::MAX {
        i32::MAX
    } else {
        v as i32
    }
}

/// A tile is skipped only when it is off the screen on both axes.
pub open spec fn spec_tile_shown(x: i32, y: i32) -> bool {
    (-SPRITE_MARGIN <= x < SCREEN_WIDTH) || (-SPRITE_MARGIN <= y < SCREEN_HEIGHT)
}

pub open spec fn spec_tile(s: RepeatedSprite, x: i32, y: i32, row: int, col: int) -> (i32, i32) {
    (spec_saturate(x + col * s.x_size), spec_saturate(y + row * s.y_size))
}

/// The shown tiles of row `row`, over the columns before `col`.
pub open spec fn spec_row_tiles(s: RepeatedSprite, x: i32, y: i32, row: int, col: int) -> Seq<(i32, i32)>
    decreases col,
{
    if col <= 0 {
        seq![]
    } else {
        let prev = spec_row_tiles(s, x, y, row, col - 1);
        let t = spec_tile(s, x, y, row, col - 1);
        if spec_tile_shown(t.0, t.1) {
            prev.push(t)
        } else {
            prev
        }
    }
}

/// The shown tiles of the rows before `row`, row by row.
pub open spec fn spec_grid_tiles(s: RepeatedSprite, x: i32, y: i32, row: int) -> Seq<(i32, i32)>
    decreases row,
{
    if row <= 0 {
        seq![]
    } else {
        spec_grid_tiles(s, x, y, row - 1) + spec_row_tiles(s, x, y, row - 1, s.cols as int)
    }
}

fn saturate(v: i64) -> (r: i32)
    ensures
        r == spec_saturate(v as int),
{
    if v < i32::MIN as i64 {
        i32::MIN
    } else if v > i32::MAX as i64 {
        i32::MAX
    } else {
        v as i32
    }
}

impl RepeatedSprite {
    /// Screen positions of the copies drawn for an object at `(x, y)`, row by
    /// row, leaving out those off the screen on both axes.
    pub fn tile_positions(&self, x: i32, y: i32) -> (r: Vec<(i32, i32)>)
        ensures
            r@ == spec_grid_tiles(*self, x, y, self.rows as int),
    {
        let mut r: Vec<(i32, i32)> = Vec::new();
        let mut row: i32 = 0;
        while row < self.rows
            invariant
                0 <= row,
                row <= self.rows || row == 0,
                r@ == spec_grid_tiles(*self, x, y, row as int),
            decreases self.rows - row,
        {
            let ghost start = r@;
            let mut col: i32 = 0;
            while col < self.cols
                invariant
                    0 <= row < self.rows,
                    0 <= col,
                    col <= self.cols || col == 0,
                    r@ == start + spec_row_tiles(*self, x, y, row as int, col as int),
                decreases self.cols - col,
            {
                proof {
                    let c = col as int;
                    let w = self.x_size as int;
                    let rr = row as int;
                    let h = self.y_size as int;
                    assert(-0x4000_0000_0000_0000 <= c * w <= 0x4000_0000_0000_0000) by (nonlinear_arith)
                        requires
                            0 <= c <= 0x8000_0000,
                            -0x8000_0000 <= w <= 0x8000_0000,
                    ;
                    assert(col as i64 * self.x_size as i64 == c * w);
                    assert(-0x4000_0000_0000_0000 <= rr * h <= 0x4000_0000_0000_0000) by (nonlinear_arith)
                        requires
                            0 <= rr <= 0x8000_0000,
                            -0x8000_0000 <= h <= 0x8000_0000,
                    ;
                    assert(row as i64 * self.y_size as i64 == rr * h);
                }
                let cx: i64 = col as i64 * self.x_size as i64;
                let ry: i64 = row as i64 * self.y_size as i64;
                let tx = saturate(x as i64 + cx);
                let ty = saturate(y as i64 + ry);
                if (-SPRITE_MARGIN <= tx && tx < SCREEN_WIDTH) || (-SPRITE_MARGIN <= ty && ty
                    < SCREEN_HEIGHT) {
                    r.push((tx, ty));
                }
                proof {
                    assert(spec_tile(*self, x, y, row as int, col as int) == (tx, ty));
                    assert(r@ =~= start + spec_row_tiles(*self, x, y, row as int, col as int + 1));
                }
                col = col + 1;
            }
            proof {
                assert(col as int == self.cols as int || (self.cols <= 0 && col == 0));
                assert(self.cols <= 0 ==> spec_row_tiles(*self, x, y, row as int, self.cols as int) == Seq::<(i32, i32)>::empty());
                assert(spec_row_tiles(*self, x, y, row as int, col as int) == spec_row_tiles(
                    *self,
                    x,
                    y,
                    row as int,
                    self.cols as int,
                ));
            }
            row = row + 1;
        }
        r
    }
}

} // verus!
