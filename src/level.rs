use vstd::prelude::*;

use crate::ball_type::{EnemyBall, PlayerBall};
use crate::input::Button;

verus! {

/// Half of the allowed swing of the launch pad around its facing, in
/// millionths of a radian.
pub const MAX_SIDE_ANGLE_MICRO: i64 = 200_000;

/// The wrap-around point of the top-facing pad, in millionths of a radian.
pub const HALF_TURN_MICRO: i64 = 500_000;

/// A position in whole pixels.
#[derive(Clone, Copy, PartialEq, Eq, Debug, Structural)]
pub struct Point {
    pub x: i32,
    pub y: i32,
}

/// The screen edge the launch pad stands on.
#[derive(Clone, Copy, PartialEq, Eq, Debug, Structural)]
pub enum PlayerDirection {
    Bottom,
    Top,
    Left,
    Right,
}

/// One level: its title, the balls the player throws in order, the enemies
/// and where they stand, and the launch pad.
#[derive(Debug)]
pub struct LevelData {
    pub title: &'static str,
    pub player_balls: Vec<PlayerBall>,
    pub enemy_balls: Vec<(EnemyBall, Point)>,
    pub start_pos: Point,
    /// Width of the aim cone, in degrees.
    pub angle_width: u32,
    pub player_direction: PlayerDirection,
}

/// Number of levels in the catalog.
pub const LEVEL_COUNT: usize = 4;

pub open spec fn pt(x: i32, y: i32) -> Point {
    Point { x, y }
}

/// The loadout of each level.
pub open spec fn spec_level_balls(index: int) -> Seq<PlayerBall> {
    if index == 3 {
        seq![PlayerBall::Boy, PlayerBall::Dog, PlayerBall::Boy, PlayerBall::Dog, PlayerBall::Princess]
    } else {
        seq![PlayerBall::Boy, PlayerBall::Dog, PlayerBall::Princess]
    }
}

/// The enemies of each level and where they start.
pub open spec fn spec_level_enemies(index: int) -> Seq<(EnemyBall, Point)> {
    if index == 0 {
        seq![(EnemyBall::GreenBlob, pt(40, 120)), (EnemyBall::Tree, pt(112, 75))]
    } else if index == 1 {
        seq![(EnemyBall::Snake, pt(200, 40))]
    } else if index == 2 {
        seq![(EnemyBall::Snake, pt(112, 120)), (EnemyBall::Tree, pt(112, 75))]
    } else {
        seq![
            (EnemyBall::Tree, pt(70, 75)),
            (EnemyBall::Phantom, pt(120, 130)),
            (EnemyBall::GreenBlob, pt(110, 110)),
            (EnemyBall::Snake, pt(130, 110)),
        ]
    }
}

pub open spec fn spec_level_direction(index: int) -> PlayerDirection {
    if index == 1 {
        PlayerDirection::Left
    } else {
        PlayerDirection::Top
    }
}

pub open spec fn spec_level_start(index: int) -> Point {
    if index == 1 {
        pt(8, 70)
    } else {
        pt(104, 24)
    }
}

/// The catalog entry at `index`, for `index < LEVEL_COUNT`.
pub open spec fn spec_is_level(r: LevelData, index: int) -> bool {
    &&& r.player_balls@ == spec_level_balls(index)
    &&& r.enemy_balls@ == spec_level_enemies(index)
    &&& r.start_pos == spec_level_start(index)
    &&& r.player_direction == spec_level_direction(index)
    &&& r.angle_width == 90
    &&& r.title == if index == 0 {
        "It is on the side "
    } else if index == 1 {
        "Hold the button! "
    } else if index == 2 {
        "Shoot the snake "
    } else {
        "The BOSS "
    }
}

/// The level at `index` of the catalog, or `None` past its end.
pub fn level(index: usize) -> (r: Option<LevelData>)
    ensures
        r is Some <==> index < LEVEL_COUNT,
        r is Some ==> spec_is_level(r->0, index as int),
{
    let trio = vec![PlayerBall::Boy, PlayerBall::Dog, PlayerBall::Princess];
    let l = if index == 0 {
        LevelData {
            title: "It is on the side ",
            player_balls: trio,
            enemy_balls: vec![
                (EnemyBall::GreenBlob, Point { x: 40, y: 120 }),
                (EnemyBall::Tree, Point { x: 112, y: 75 }),
            ],
            start_pos: Point { x: 104, y: 24 },
            angle_width: 90,
            player_direction: PlayerDirection::Top,
        }
    } else if index == 1 {
        LevelData {
            title: "Hold the button! ",
            player_balls: trio,
            enemy_balls: vec![(EnemyBall::Snake, Point { x: 200, y: 40 })],
            start_pos: Point { x: 8, y: 70 },
            angle_width: 90,
            player_direction: PlayerDirection::Left,
        }
    } else if index == 2 {
        LevelData {
            title: "Shoot the snake ",
            player_balls: trio,
            enemy_balls: vec![
                (EnemyBall::Snake, Point { x: 112, y: 120 }),
                (EnemyBall::Tree, Point { x: 112, y: 75 }),
            ],
            start_pos: Point { x: 104, y: 24 },
            angle_width: 90,
            player_direction: PlayerDirection::Top,
        }
    } else if index == 3 {
        LevelData {
            title: "The BOSS ",
            player_balls: vec![
                PlayerBall::Boy,
                PlayerBall::Dog,
                PlayerBall::Boy,
                PlayerBall::Dog,
                PlayerBall::Princess,
            ],
            enemy_balls: vec![
                (EnemyBall::Tree, Point { x: 70, y: 75 }),
                (EnemyBall::Phantom, Point { x: 120, y: 130 }),
                (EnemyBall::GreenBlob, Point { x: 110, y: 110 }),
                (EnemyBall::Snake, Point { x: 130, y: 110 }),
            ],
            start_pos: Point { x: 104, y: 24 },
            angle_width: 90,
            player_direction: PlayerDirection::Top,
        }
    } else {
        return None;
    };
    assert(l.player_balls@ =~= spec_level_balls(index as int));
    assert(l.enemy_balls@ =~= spec_level_enemies(index as int));
    Some(l)
}

/// The whole catalog, in play order.
pub fn levels() -> (r: Vec<LevelData>)
    ensures
        r@.len() == LEVEL_COUNT,
        forall|i: int| 0 <= i < LEVEL_COUNT ==> spec_is_level(#[trigger] r@[i], i),
{
    let mut r: Vec<LevelData> = Vec::new();
    let mut i: usize = 0;
    while i < LEVEL_COUNT
        invariant
            i <= LEVEL_COUNT,
            r@.len() == i,
            forall|k: int| 0 <= k < i ==> spec_is_level(#[trigger] r@[k], k),
        decreases LEVEL_COUNT - i,
    {
        match level(i) {
            Some(l) => r.push(l),
            None => {},
        }
        i = i + 1;
    }
    r
}

/// Number of balls in the first `n` rows of a triangle.
pub open spec fn tri(n: int) -> int
    decreases n,
{
    if n <= 0 {
        0
    } else {
        tri(n - 1) + n
    }
}

proof fn lemma_tri_monotone(a: int, b: int)
    requires
        0 <= a <= b,
    ensures
        tri(a) + (b - a) <= tri(b),
    decreases b - a,
{
    if a < b {
        lemma_tri_monotone(a, b - 1);
    }
}

/// Where the ball of row `row` and place `col` of a triangle stands: each row
/// starts half a side step and a layer step after the previous one, and the
/// balls of a row are two half side steps apart, going back.
pub open spec fn spec_triangle_pos(start: Point, half: Point, layer: Point, row: int, col: int) -> (int, int) {
    (
        start.x + row * (half.x + layer.x) - 2 * col * half.x,
        start.y + row * (half.y + layer.y) - 2 * col * half.y,
    )
}

pub open spec fn fits_i32(v: int) -> bool {
    i32::MIN <= v <= i32::MAX
}

/// Lays out `depth` rows of `ball` in a triangle: row `r` holds `r + 1`
/// balls. The result lists them row by row.
pub fn triangle(ball: EnemyBall, depth: usize, start: Point, half_side_step: Point, layer_step: Point) -> (r: Vec<(EnemyBall, Point)>)
    requires
        forall|row: int, col: int|
            0 <= col <= row < depth ==> fits_i32(
                #[trigger] spec_triangle_pos(start, half_side_step, layer_step, row, col).0,
            ) && fits_i32(spec_triangle_pos(start, half_side_step, layer_step, row, col).1),
    ensures
        r@.len() == tri(depth as int),
        forall|row: int, col: int|
            0 <= col <= row < depth ==> #[trigger] r@[tri(row) + col] == (ball, Point {
                x: spec_triangle_pos(start, half_side_step, layer_step, row, col).0 as i32,
                y: spec_triangle_pos(start, half_side_step, layer_step, row, col).1 as i32,
            }),
{
    let mut v: Vec<(EnemyBall, Point)> = Vec::new();
    let mut row: usize = 0;
    while row < depth
        invariant
            row <= depth,
            v@.len() == tri(row as int),
            forall|rr: int, cc: int|
                0 <= cc <= rr < row ==> #[trigger] v@[tri(rr) + cc] == (ball, Point {
                    x: spec_triangle_pos(start, half_side_step, layer_step, rr, cc).0 as i32,
                    y: spec_triangle_pos(start, half_side_step, layer_step, rr, cc).1 as i32,
                }),
            forall|row: int, col: int|
                0 <= col <= row < depth ==> fits_i32(
                    #[trigger] spec_triangle_pos(start, half_side_step, layer_step, row, col).0,
                ) && fits_i32(spec_triangle_pos(start, half_side_step, layer_step, row, col).1),
        decreases depth - row,
    {
        let mut col: usize = 0;
        while col <= row
            invariant
                row < depth,
                col <= row + 1,
                v@.len() == tri(row as int) + col,
                forall|rr: int, cc: int|
                    0 <= cc <= rr < row ==> #[trigger] v@[tri(rr) + cc] == (ball, Point {
                        x: spec_triangle_pos(start, half_side_step, layer_step, rr, cc).0 as i32,
                        y: spec_triangle_pos(start, half_side_step, layer_step, rr, cc).1 as i32,
                    }),
                forall|cc: int|
                    0 <= cc < col ==> #[trigger] v@[tri(row as int) + cc] == (ball, Point {
                        x: spec_triangle_pos(start, half_side_step, layer_step, row as int, cc).0 as i32,
                        y: spec_triangle_pos(start, half_side_step, layer_step, row as int, cc).1 as i32,
                    }),
                forall|row: int, col: int|
                    0 <= col <= row < depth ==> fits_i32(
                        #[trigger] spec_triangle_pos(start, half_side_step, layer_step, row, col).0,
                    ) && fits_i32(spec_triangle_pos(start, half_side_step, layer_step, row, col).1),
            decreases row + 1 - col,
        {
            let ghost p = spec_triangle_pos(start, half_side_step, layer_step, row as int, col as int);
            assert(fits_i32(p.0) && fits_i32(p.1));
            let rr: i128 = row as i128;
            let cc: i128 = col as i128;
            let hx: i128 = half_side_step.x as i128;
            let hy: i128 = half_side_step.y as i128;
            let lx: i128 = layer_step.x as i128;
            let ly: i128 = layer_step.y as i128;
            proof {
                assert(-0x1_0000_0000_0000_0000_0000_0000 <= rr * (hx + lx) <= 0x1_0000_0000_0000_0000_0000_0000)
                    by (nonlinear_arith)
                    requires
                        0 <= rr <= 0xffff_ffff_ffff_ffff,
                        -0x1_0000_0000 <= hx + lx <= 0x1_0000_0000,
                ;
                assert(-0x1_0000_0000_0000_0000_0000_0000 <= rr * (hy + ly) <= 0x1_0000_0000_0000_0000_0000_0000)
                    by (nonlinear_arith)
                    requires
                        0 <= rr <= 0xffff_ffff_ffff_ffff,
                        -0x1_0000_0000 <= hy + ly <= 0x1_0000_0000,
                ;
                assert(-0x1_0000_0000_0000_0000_0000_0000 <= 2 * cc * hx <= 0x1_0000_0000_0000_0000_0000_0000)
                    by (nonlinear_arith)
                    requires
                        0 <= cc <= 0xffff_ffff_ffff_ffff,
                        -0x8000_0000 <= hx <= 0x8000_0000,
                ;
                assert(-0x1_0000_0000_0000_0000_0000_0000 <= 2 * cc * hy <= 0x1_0000_0000_0000_0000_0000_0000)
                    by (nonlinear_arith)
                    requires
                        0 <= cc <= 0xffff_ffff_ffff_ffff,
                        -0x8000_0000 <= hy <= 0x8000_0000,
                ;
            }
            let x: i128 = start.x as i128 + rr * (hx + lx) - 2 * cc * hx;
            let y: i128 = start.y as i128 + rr * (hy + ly) - 2 * cc * hy;
            assert(x == p.0 && y == p.1);
            let ghost old_v = v@;
            v.push((ball, Point { x: x as i32, y: y as i32 }));
            proof {
                assert forall|r2: int, c2: int| 0 <= c2 <= r2 < row implies #[trigger] v@[tri(r2) + c2]
                    == old_v[tri(r2) + c2] by {
                    lemma_tri_monotone(r2 + 1, row as int);
                    lemma_tri_monotone(0, r2);
                    assert(tri(r2 + 1) == tri(r2) + r2 + 1);
                    assert(0 <= tri(r2) + c2 < old_v.len());
                }
                lemma_tri_monotone(0, row as int);
                assert(v@[tri(row as int) + col] == (ball, Point { x: x as i32, y: y as i32 }));
                assert forall|c2: int| 0 <= c2 < col + 1 implies #[trigger] v@[tri(row as int) + c2]
                    == (ball, Point {
                    x: spec_triangle_pos(start, half_side_step, layer_step, row as int, c2).0 as i32,
                    y: spec_triangle_pos(start, half_side_step, layer_step, row as int, c2).1 as i32,
                }) by {
                    if c2 < col {
                        assert(v@[tri(row as int) + c2] == old_v[tri(row as int) + c2]);
                    }
                }
            }
            col = col + 1;
        }
        proof {
            assert(tri(row as int + 1) == tri(row as int) + row + 1);
            assert forall|rr: int, cc: int|
                0 <= cc <= rr < row + 1 implies #[trigger] v@[tri(rr) + cc] == (ball, Point {
                    x: spec_triangle_pos(start, half_side_step, layer_step, rr, cc).0 as i32,
                    y: spec_triangle_pos(start, half_side_step, layer_step, rr, cc).1 as i32,
                }) by {
                if rr < row {
                } else {
                    assert(v@[tri(row as int) + cc] == v@[tri(rr) + cc]);
                }
            }
        }
        row = row + 1;
    }
    v
}

impl LevelData {
    /// The ball thrown in position `index` of the loadout; `None` past its end.
    pub fn player_ball_at(&self, index: usize) -> (r: Option<PlayerBall>)
        ensures
            r is Some <==> index < self.player_balls@.len(),
            r is Some ==> r->0 == self.player_balls@[index as int],
    {
        if index >= self.player_balls.len() {
            None
        } else {
            Some(self.player_balls[index])
        }
    }
}

impl PlayerDirection {
    pub open spec fn spec_rotation_buttons(self) -> (Button, Button) {
        match self {
            PlayerDirection::Bottom => (Button::DPadLeft, Button::DPadRight),
            PlayerDirection::Top => (Button::DPadRight, Button::DPadLeft),
            PlayerDirection::Left => (Button::DPadUp, Button::DPadDown),
            PlayerDirection::Right => (Button::DPadDown, Button::DPadUp),
        }
    }

    /// The d-pad buttons that turn the pad one way and the other way.
    pub fn rotation_buttons(&self) -> (r: (Button, Button))
        ensures
            r == self.spec_rotation_buttons(),
            r == match *self {
                PlayerDirection::Bottom => (Button::DPadLeft, Button::DPadRight),
                PlayerDirection::Top => (Button::DPadRight, Button::DPadLeft),
                PlayerDirection::Left => (Button::DPadUp, Button::DPadDown),
                PlayerDirection::Right => (Button::DPadDown, Button::DPadUp),
            },
    {
        match self {
            PlayerDirection::Bottom => (Button::DPadLeft, Button::DPadRight),
            PlayerDirection::Top => (Button::DPadRight, Button::DPadLeft),
            PlayerDirection::Left => (Button::DPadUp, Button::DPadDown),
            PlayerDirection::Right => (Button::DPadDown, Button::DPadUp),
        }
    }

    pub open spec fn spec_rotation_range(self) -> (i64, i64) {
        match self {
            PlayerDirection::Bottom => (-200_000i64, 200_000i64),
            PlayerDirection::Top => (-300_000i64, 300_000i64),
            PlayerDirection::Left => (-450_000i64, -50_000i64),
            PlayerDirection::Right => (50_000i64, 450_000i64),
        }
    }

    /// The bounds of the pad's angle, in millionths of a radian. For the top
    /// facing the pad stays outside the interval, wrapping at a half turn.
    pub fn rotation_range(&self) -> (r: (i64, i64))
        ensures
            r == self.spec_rotation_range(),
    {
        match self {
            PlayerDirection::Bottom => (-MAX_SIDE_ANGLE_MICRO, MAX_SIDE_ANGLE_MICRO),
            PlayerDirection::Top => (
                -(HALF_TURN_MICRO - MAX_SIDE_ANGLE_MICRO),
                HALF_TURN_MICRO - MAX_SIDE_ANGLE_MICRO,
            ),
            PlayerDirection::Left => (
                -HALF_TURN_MICRO / 2 - MAX_SIDE_ANGLE_MICRO,
                -HALF_TURN_MICRO / 2 + MAX_SIDE_ANGLE_MICRO,
            ),
            PlayerDirection::Right => (
                HALF_TURN_MICRO / 2 - MAX_SIDE_ANGLE_MICRO,
                HALF_TURN_MICRO / 2 + MAX_SIDE_ANGLE_MICRO,
            ),
        }
    }

    /// The angle the pad starts at, in millionths of a radian.
    pub fn base_rotation(&self) -> (r: i64)
        ensures
            r == match *self {
                PlayerDirection::Bottom => 0i64,
                PlayerDirection::Top => 500_000i64,
                PlayerDirection::Left => -250_000i64,
                PlayerDirection::Right => 250_000i64,
            },
    {
        match self {
            PlayerDirection::Bottom => 0,
            PlayerDirection::Top => HALF_TURN_MICRO,
            PlayerDirection::Left => -HALF_TURN_MICRO / 2,
            PlayerDirection::Right => HALF_TURN_MICRO / 2,
        }
    }
}

} // verus!
