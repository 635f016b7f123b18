use vstd::prelude::*;

verus! {

/// Width of the handheld's screen, in pixels.
pub const SCREEN_WIDTH: i32 = 240;

/// Height of the handheld's screen, in pixels.
pub const SCREEN_HEIGHT: i32 = 160;

/// Sub-pixel positions and offsets are counted in millionths of a pixel, so
/// that a speed in pixels per second times a duration in microseconds is an
/// exact distance.
pub const MICROS_PER_UNIT: i64 = 1_000_000;

/// A handle on a game object, as the entity store numbers it.
#[derive(Clone, Copy, PartialEq, Eq, Debug, Hash, Structural)]
pub struct EntityId(pub u64);

/// Size of the screen, in pixels.
pub fn get_screen_size() -> (r: (i32, i32))
    ensures
        r == (SCREEN_WIDTH, SCREEN_HEIGHT),
{
    (SCREEN_WIDTH, SCREEN_HEIGHT)
}

/// Center of the screen, in pixels.
pub fn get_screen_center_position() -> (r: (i32, i32))
    ensures
        r.0 == SCREEN_WIDTH / 2 && r.1 == SCREEN_HEIGHT / 2,
        r == (120i32, 80i32),
{
    let (w, h) = get_screen_size();
    (w / 2, h / 2)
}

} // verus!
