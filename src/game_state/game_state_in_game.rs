use vstd::prelude::*;

use crate::fade_transition::{FadeExternalData, FadeTransitionType, TransitionSpeed};
use crate::input::{Button, GamepadInput};
use crate::level::{
    level, spec_is_level, spec_level_balls, LevelData, PlayerDirection, HALF_TURN_MICRO,
    LEVEL_COUNT,
};
use crate::text::{TextAlignment, TextContent};
use crate::utils::EntityId;
use crate::ball_type::PlayerBall;

verus! {

/// How long a level's title stays up, in microseconds.
pub const LEVEL_TITLE_DURATION_US: u64 = 2_500_000;

/// Time between a throw and the next ball on the pad, in microseconds.
pub const FIRE_COOLDOWN_US: u64 = 1_000_000;

/// Time the success or failure message stays up before the level changes.
pub const FINISH_GRACE_US: u64 = 3_000_000;

/// Holding the fire button this long gives full power, in microseconds.
pub const FULL_CHARGE_US: u64 = 1_000_000;

/// Launch power with no charge, in millionths of an impulse unit.
pub const MIN_POWER_MICRO: u64 = 80_000_000;

/// Launch power at full charge, in millionths of an impulse unit.
pub const MAX_POWER_MICRO: u64 = 190_000_000;

/// Holding a rotation button this long turns the pad at full speed.
pub const ROTATION_RAMP_US: u64 = 2_000_000;

/// Largest turn of the pad in one tick, in millionths of a radian.
pub const MAX_ROTATION_STEP_MICRO: i64 = 1_000_000;

/// Bound on the pad angles handled, in millionths of a radian (beyond a half
/// circle either way).
pub const ANGLE_BOUND_MICRO: i64 = 4_000_000;

/// The level the game wants on screen, and a retry counter that asks for the
/// current level again after a failure.
#[derive(Clone, Copy, PartialEq, Eq, Debug, Structural)]
pub struct WantedLevel(pub Option<usize>, pub Option<usize>);

/// The level on screen, its launch pad and the ball sitting on the pad.
#[derive(Clone, Copy, PartialEq, Eq, Debug, Structural)]
pub struct CurrentLevel {
    pub level_index: Option<usize>,
    pub player_entity: Option<EntityId>,
    pub player_ball_selected: Option<EntityId>,
}

/// Per-level state of the in-game controller. Times are microseconds since
/// the game started.
#[derive(Clone, Copy, PartialEq, Eq, Debug, Structural)]
pub struct InGameData {
    pub time_started_pressing_to_rotate: u64,
    pub player_start_press_to_fire_time: Option<u64>,
    /// When the last ball was thrown; `None` before the first throw.
    pub last_ball_fire_time: Option<u64>,
    pub next_player_ball_to_use: usize,
    pub nb_ball_fired: usize,
    /// When the level was won or lost; `None` while it goes on.
    pub text_success_fail_added_time: Option<u64>,
    pub is_success: bool,
    pub time_since_level_start: u64,
    pub stabilized: bool,
    pub balls_text: Option<EntityId>,
    pub levels_text: Option<EntityId>,
}

/// What the load step asks of the entity store.
#[derive(Clone, Copy, PartialEq, Eq, Debug, Structural)]
pub enum LoadAction {
    /// The wanted level is on screen, or a fade is under way.
    Unchanged,
    /// Remove the level's entities and build level `index`.
    LoadLevel(usize),
    /// Remove the level's entities; the last level is done, go to the credits.
    GoToCredit,
}

/// A ball leaving the pad.
#[derive(Clone, Copy, PartialEq, Eq, Debug, Structural)]
pub struct Launch {
    pub ball: EntityId,
    /// Impulse magnitude, in millionths of an impulse unit.
    pub power_micro: u64,
    /// The pad's angle at the throw, in millionths of a radian.
    pub pad_angle: i64,
}

/// What one tick of player control asks of the entity store.
#[derive(Clone, Copy, PartialEq, Eq, Debug, Structural)]
pub struct PlayerControl {
    /// The pad's angle after the tick, in millionths of a radian.
    pub pad_angle: Option<i64>,
    pub launch: Option<Launch>,
    /// How far the fire button is charged, in millionths of a full charge.
    pub charge_micro: u64,
    /// Whether the ball on the pad follows the pad and the charge.
    pub move_selected_ball: bool,
}

/// Microseconds from `since` to `now`, zero if `now` comes first.
pub open spec fn spec_elapsed(now: u64, since: u64) -> u64 {
    if now >= since {
        (now - since) as u64
    } else {
        0
    }
}

fn elapsed(now: u64, since: u64) -> (r: u64)
    ensures
        r == spec_elapsed(now, since),
{
    if now >= since {
        now - since
    } else {
        0
    }
}

pub open spec fn spec_min(a: int, b: int) -> int {
    if a <= b {
        a
    } else {
        b
    }
}

/// Launch power for a charge held `held_us` microseconds: 80 at no charge,
/// 190 at one second or more, linear in between (millionths of a unit).
pub open spec fn spec_launch_power(held_us: u64) -> u64 {
    (MIN_POWER_MICRO + 110 * spec_min(held_us as int, FULL_CHARGE_US as int)) as u64
}

/// The charge of the fire button, in millionths of a full charge.
pub open spec fn spec_charge(data: InGameData, now: u64) -> u64 {
    match data.player_start_press_to_fire_time {
        Some(t) => spec_min(spec_elapsed(now, t) as int, FULL_CHARGE_US as int) as u64,
        None => 0,
    }
}

/// How far the pad turns in `delta_us` with a rotation button held for
/// `held_us`: 0.1 radian per second, ramping up to four times that over two
/// seconds of holding, at most one radian per tick (millionths of a radian).
pub open spec fn spec_rotation_change(delta_us: u64, held_us: u64) -> int {
    spec_min(
        delta_us * (2_000_000 + 3 * spec_min(held_us as int, ROTATION_RAMP_US as int))
            / 20_000_000,
        MAX_ROTATION_STEP_MICRO as int,
    )
}

pub open spec fn spec_clamp(v: int, lo: int, hi: int) -> int {
    if v < lo {
        lo
    } else if v > hi {
        hi
    } else {
        v
    }
}

/// The pad's angle after turning by `change` one way (`turn_left`) or the
/// other. The top-facing pad wraps around at a half turn and is pushed out of
/// its forbidden middle interval to the bound it came from; the others are
/// clamped to their interval.
pub open spec fn spec_rotate(dir: PlayerDirection, angle: int, change: int, turn_left: bool) -> int {
    let lo = dir.spec_rotation_range().0 as int;
    let hi = dir.spec_rotation_range().1 as int;
    if dir == PlayerDirection::Top {
        if turn_left {
            let n = angle + change;
            let w = if n > HALF_TURN_MICRO { -HALF_TURN_MICRO + (n - HALF_TURN_MICRO) } else { n };
            if lo < w && w < hi {
                lo
            } else {
                w
            }
        } else {
            let n = angle - change;
            let w = if n < -HALF_TURN_MICRO { HALF_TURN_MICRO - (-n - HALF_TURN_MICRO) } else { n };
            if lo < w && w < hi {
                hi
            } else {
                w
            }
        }
    } else if turn_left {
        spec_clamp(angle + change, lo, hi)
    } else {
        spec_clamp(angle - change, lo, hi)
    }
}

/// The counter behind an optional retry count: no count is zero.
pub open spec fn spec_count(c: Option<usize>) -> int {
    match c {
        Some(n) => n as int,
        None => 0,
    }
}

/// Fresh per-level state for a level that started at `start`.
pub open spec fn spec_fresh(d: InGameData, start: u64, balls_text: Option<EntityId>, levels_text: Option<EntityId>) -> bool {
    &&& d.time_started_pressing_to_rotate == 0
    &&& d.player_start_press_to_fire_time is None
    &&& d.last_ball_fire_time is None
    &&& d.next_player_ball_to_use == 0
    &&& d.nb_ball_fired == 0
    &&& d.text_success_fail_added_time is None
    &&& !d.is_success
    &&& d.time_since_level_start == start
    &&& !d.stabilized
    &&& d.balls_text == balls_text
    &&& d.levels_text == levels_text
}

fn fresh_data(start: u64, balls_text: Option<EntityId>, levels_text: Option<EntityId>) -> (r: InGameData)
    ensures
        spec_fresh(r, start, balls_text, levels_text),
{
    InGameData {
        time_started_pressing_to_rotate: 0,
        player_start_press_to_fire_time: None,
        last_ball_fire_time: None,
        next_player_ball_to_use: 0,
        nb_ball_fired: 0,
        text_success_fail_added_time: None,
        is_success: false,
        time_since_level_start: start,
        stabilized: false,
        balls_text,
        levels_text,
    }
}

impl WantedLevel {
    /// Nothing wanted yet.
    pub fn new() -> (r: WantedLevel)
        ensures
            r == WantedLevel(None, None),
    {
        WantedLevel(None, None)
    }
}

impl CurrentLevel {
    /// The level index, when set, names a level of the catalog.
    pub open spec fn wf(&self) -> bool {
        self.level_index matches Some(i) ==> i < LEVEL_COUNT
    }

    /// No level, no pad, no ball.
    pub fn new() -> (r: CurrentLevel)
        ensures
            r.wf(),
            r.level_index is None,
            r.player_entity is None,
            r.player_ball_selected is None,
    {
        CurrentLevel { level_index: None, player_entity: None, player_ball_selected: None }
    }

    pub fn id(&self) -> (r: Option<usize>)
        ensures
            r == self.level_index,
    {
        self.level_index
    }

    /// The catalog entry of the level on screen.
    pub fn data(&self) -> (r: Option<LevelData>)
        requires
            self.wf(),
        ensures
            r is Some <==> self.level_index is Some,
            r is Some ==> spec_is_level(r->0, self.level_index->0 as int),
    {
        match self.level_index {
            Some(i) => level(i),
            None => None,
        }
    }
}

/// Entering the game: a first entry asks for the first level, and the
/// per-level state starts fresh with the heads-up text given.
pub fn in_game_enter(wanted: &mut WantedLevel, balls_text: Option<EntityId>) -> (r: InGameData)
    ensures
        old(wanted).0 is None ==> *final(wanted) == WantedLevel(Some(0), Some(0)),
        old(wanted).0 is Some ==> *final(wanted) == *old(wanted),
        spec_fresh(r, 0, balls_text, None),
{
    if wanted.0.is_none() {
        *wanted = WantedLevel(Some(0), Some(0));
    }
    fresh_data(0, balls_text, None)
}

/// Loads the wanted level when it differs from the one on screen, or when a
/// retry is asked, once no fade runs or waits. Past the last level the game
/// goes to the credits.
pub fn exec_load_level(
    wanted: &mut WantedLevel,
    current: &mut CurrentLevel,
    data: &mut InGameData,
    fade: &mut FadeExternalData,
    now: u64,
) -> (r: LoadAction)
    requires
        old(current).wf(),
    ensures
        final(current).wf(),
        ({
            let w = *old(wanted);
            let c = *old(current);
            let idle = !old(fade).spec_busy();
            let needed = !(c.level_index == w.0 && w.1 is None);
            if !needed || !idle {
                &&& r == LoadAction::Unchanged
                &&& *final(wanted) == w
                &&& *final(current) == c
                &&& *final(data) == *old(data)
                &&& *final(fade) == *old(fade)
            } else {
                &&& final(current).player_entity is None
                &&& final(current).player_ball_selected is None
                &&& spec_fresh(*final(data), now, old(data).balls_text, old(data).levels_text)
                &&& if w.0 is Some && w.0->0 < LEVEL_COUNT {
                    &&& r == LoadAction::LoadLevel(w.0->0)
                    &&& final(current).level_index == w.0
                    &&& *final(wanted) == WantedLevel(w.0, None)
                    &&& *final(fade) == (FadeExternalData {
                        request: crate::fade_transition::FadeRequestData {
                            request_valid: true,
                            is_fade_in: true,
                            speed: TransitionSpeed::Fast,
                            transition_type: FadeTransitionType::Vertical,
                        },
                        ..*old(fade)
                    })
                } else {
                    &&& r == LoadAction::GoToCredit
                    &&& final(current).level_index is None
                    &&& *final(wanted) == w
                    &&& *final(fade) == *old(fade)
                }
            }
        }),
{
    if current.level_index == wanted.0 && wanted.1.is_none() {
        return LoadAction::Unchanged;
    }
    if fade.is_busy() {
        return LoadAction::Unchanged;
    }
    current.player_ball_selected = None;
    current.player_entity = None;
    *data = fresh_data(now, data.balls_text, data.levels_text);
    let w0 = wanted.0;
    let target = match w0 {
        Some(i) => if i < LEVEL_COUNT {
            Some(i)
        } else {
            None
        },
        None => None,
    };
    match target {
        Some(i) => {
            current.level_index = Some(i);
            wanted.1 = None;
            fade.request_fade(true, TransitionSpeed::Fast, FadeTransitionType::Vertical);
            LoadAction::LoadLevel(i)
        },
        _ => {
            current.level_index = None;
            LoadAction::GoToCredit
        },
    }
}

/// The ball counter text for `current` balls left out of `max`, for the
/// loadout sizes the catalog uses.
pub open spec fn spec_ball_string(current: usize, max: usize) -> TextContent {
    if max == 3 {
        if current == 0 {
            TextContent::Ref("Balls: 0/3 ")
        } else if current == 1 {
            TextContent::Ref("Balls: 1/3 ")
        } else if current == 2 {
            TextContent::Ref("Balls: 2/3 ")
        } else if current == 3 {
            TextContent::Ref("Balls: 3/3 ")
        } else {
            TextContent::No
        }
    } else if max == 5 {
        if current == 0 {
            TextContent::Ref("Balls: 0/5 ")
        } else if current == 1 {
            TextContent::Ref("Balls: 1/5 ")
        } else if current == 2 {
            TextContent::Ref("Balls: 2/5 ")
        } else if current == 3 {
            TextContent::Ref("Balls: 3/5 ")
        } else if current == 4 {
            TextContent::Ref("Balls: 4/5 ")
        } else if current == 5 {
            TextContent::Ref("Balls: 5/5 ")
        } else {
            TextContent::No
        }
    } else {
        TextContent::No
    }
}

pub fn get_ball_string(current: usize, max: usize) -> (r: TextContent)
    ensures
        r == spec_ball_string(current, max),
{
    if max == 3 {
        if current == 0 {
            TextContent::Ref("Balls: 0/3 ")
        } else if current == 1 {
            TextContent::Ref("Balls: 1/3 ")
        } else if current == 2 {
            TextContent::Ref("Balls: 2/3 ")
        } else if current == 3 {
            TextContent::Ref("Balls: 3/3 ")
        } else {
            TextContent::No
        }
    } else if max == 5 {
        if current == 0 {
            TextContent::Ref("Balls: 0/5 ")
        } else if current == 1 {
            TextContent::Ref("Balls: 1/5 ")
        } else if current == 2 {
            TextContent::Ref("Balls: 2/5 ")
        } else if current == 3 {
            TextContent::Ref("Balls: 3/5 ")
        } else if current == 4 {
            TextContent::Ref("Balls: 4/5 ")
        } else if current == 5 {
            TextContent::Ref("Balls: 5/5 ")
        } else {
            TextContent::No
        }
    } else {
        TextContent::No
    }
}

/// The heads-up text and its alignment: the outcome once the level is over,
/// the level's title during its first two and a half seconds, and the count
/// of balls left otherwise.
pub fn update_text(data: &InGameData, current: &CurrentLevel, now: u64) -> (r: (TextContent, TextAlignment))
    requires
        current.wf(),
    ensures
        ({
            let title_time = now < data.time_since_level_start || now - data.time_since_level_start
                < LEVEL_TITLE_DURATION_US;
            let finished = data.text_success_fail_added_time is Some;
            let total: int = match current.level_index {
                Some(i) => spec_level_balls(i as int).len() as int,
                None => 1,
            };
            let left: int = if data.nb_ball_fired > total { 0 } else { total - data.nb_ball_fired };
            &&& r.1 == if finished || title_time { TextAlignment::Center } else { TextAlignment::Right }
            &&& finished && data.is_success ==> r.0 == TextContent::Ref("Success ! ")
            &&& finished && !data.is_success ==> r.0 == TextContent::Ref("Fail, No balls left :( ")
            &&& !finished && title_time ==> match current.level_index {
                Some(i) => exists|l: LevelData| spec_is_level(l, i as int) && r.0 == TextContent::Ref(l.title),
                None => r.0 == TextContent::Ref(""),
            }
            &&& !finished && !title_time ==> r.0 == spec_ball_string(left as usize, total as usize)
        }),
{
    let title_time = now < data.time_since_level_start || now - data.time_since_level_start
        < LEVEL_TITLE_DURATION_US;
    let finished = data.text_success_fail_added_time.is_some();
    let alignment = if finished || title_time {
        TextAlignment::Center
    } else {
        TextAlignment::Right
    };
    let content = if finished {
        if data.is_success {
            TextContent::Ref("Success ! ")
        } else {
            TextContent::Ref("Fail, No balls left :( ")
        }
    } else if title_time {
        match current.data() {
            Some(l) => TextContent::Ref(l.title),
            None => TextContent::Ref(""),
        }
    } else {
        let total: usize = match current.data() {
            Some(l) => l.player_balls.len(),
            None => 1,
        };
        let left: usize = if data.nb_ball_fired > total {
            0
        } else {
            total - data.nb_ball_fired
        };
        get_ball_string(left, total)
    };
    (content, alignment)
}

fn rotation_change(delta_us: u64, held_us: u64) -> (r: i64)
    ensures
        r == spec_rotation_change(delta_us, held_us),
        0 <= r <= MAX_ROTATION_STEP_MICRO,
{
    let h: u64 = if held_us < ROTATION_RAMP_US {
        held_us
    } else {
        ROTATION_RAMP_US
    };
    let factor: u128 = 2_000_000 + 3 * h as u128;
    assert(delta_us as u128 * factor <= 0xffff_ffff_ffff_ffffu128 * 8_000_000) by (nonlinear_arith)
        requires
            factor <= 8_000_000,
    ;
    let c: u128 = delta_us as u128 * factor / 20_000_000;
    if c > MAX_ROTATION_STEP_MICRO as u128 {
        MAX_ROTATION_STEP_MICRO
    } else {
        c as i64
    }
}

/// Turns the launch pad by `change` one way or the other, as `spec_rotate` says.
pub fn rotate_launch_pad(dir: PlayerDirection, angle: i64, change: i64, turn_left: bool) -> (r: i64)
    requires
        -ANGLE_BOUND_MICRO <= angle <= ANGLE_BOUND_MICRO,
        0 <= change <= MAX_ROTATION_STEP_MICRO,
    ensures
        r == spec_rotate(dir, angle as int, change as int, turn_left),
        -ANGLE_BOUND_MICRO <= r <= ANGLE_BOUND_MICRO,
{
    let (lo, hi) = dir.rotation_range();
    if dir == PlayerDirection::Top {
        if turn_left {
            let mut n = angle + change;
            if n > HALF_TURN_MICRO {
                n = -HALF_TURN_MICRO + (n - HALF_TURN_MICRO);
            }
            if lo < n && n < hi {
                lo
            } else {
                n
            }
        } else {
            let mut n = angle - change;
            if n < -HALF_TURN_MICRO {
                n = HALF_TURN_MICRO - (-n - HALF_TURN_MICRO);
            }
            if lo < n && n < hi {
                hi
            } else {
                n
            }
        }
    } else {
        let n = if turn_left {
            angle + change
        } else {
            angle - change
        };
        if n < lo {
            lo
        } else if n > hi {
            hi
        } else {
            n
        }
    }
}

fn charge(data: &InGameData, now: u64) -> (r: u64)
    ensures
        r == spec_charge(*data, now),
        r <= FULL_CHARGE_US,
{
    match data.player_start_press_to_fire_time {
        Some(t) => {
            let e = elapsed(now, t);
            if e < FULL_CHARGE_US {
                e
            } else {
                FULL_CHARGE_US
            }
        },
        None => 0,
    }
}

/// Launch power for the current charge (millionths of an impulse unit).
pub fn launch_power(data: &InGameData, now: u64) -> (r: u64)
    ensures
        r == (MIN_POWER_MICRO + 110 * spec_charge(*data, now)) as u64,
        MIN_POWER_MICRO <= r <= MAX_POWER_MICRO,
{
    let c = charge(data, now);
    MIN_POWER_MICRO + 110 * c
}

/// One tick of player control. `pad_angle` is the launch pad's angle in
/// millionths of a radian, `None` when the level has no pad (or it is gone).
/// While the level is over only the ball on the pad keeps following it; the
/// d-pad turns the pad; pressing fire starts the charge and releasing it
/// throws the ball on the pad with the charged power.
pub fn player_control(
    data: &mut InGameData,
    current: &mut CurrentLevel,
    input: &GamepadInput,
    now: u64,
    delta_us: u64,
    pad_angle: Option<i64>,
) -> (r: PlayerControl)
    requires
        old(current).wf(),
        pad_angle matches Some(a) ==> -ANGLE_BOUND_MICRO <= a <= ANGLE_BOUND_MICRO,
    ensures
        final(current).wf(),
        final(current).level_index == old(current).level_index,
        final(current).player_entity == old(current).player_entity,
        r.pad_angle matches Some(a) ==> -ANGLE_BOUND_MICRO <= a <= ANGLE_BOUND_MICRO,
        old(current).level_index is None ==> {
            &&& *final(data) == *old(data)
            &&& *final(current) == *old(current)
            &&& r == PlayerControl { pad_angle, launch: None, charge_micro: 0, move_selected_ball: false }
        },
        old(current).level_index is Some && old(data).text_success_fail_added_time is Some ==> {
            &&& *final(data) == *old(data)
            &&& *final(current) == *old(current)
            &&& r == PlayerControl {
                pad_angle,
                launch: None,
                charge_micro: spec_charge(*old(data), now),
                move_selected_ball: true,
            }
        },
        old(current).level_index is Some && old(data).text_success_fail_added_time is None ==> {
            let dir = crate::level::spec_level_direction(old(current).level_index->0 as int);
            let left = dir.spec_rotation_buttons().0;
            let right = dir.spec_rotation_buttons().1;
            let restart = input.just_pressed@.contains(left) || input.just_pressed@.contains(right);
            let rot_start = if restart { now } else { old(data).time_started_pressing_to_rotate };
            let change = spec_rotation_change(delta_us, spec_elapsed(now, rot_start));
            let a1: Option<i64> = match pad_angle {
                Some(a) => if input.pressed@.contains(left) {
                    Some(spec_rotate(dir, a as int, change, true) as i64)
                } else {
                    Some(a)
                },
                None => None,
            };
            let a2: Option<i64> = match a1 {
                Some(a) => if input.pressed@.contains(right) {
                    Some(spec_rotate(dir, a as int, change, false) as i64)
                } else {
                    Some(a)
                },
                None => None,
            };
            let fire_down = input.just_pressed@.contains(Button::East);
            let throws = !fire_down && input.just_released@.contains(Button::East) && pad_angle is Some
                && old(current).player_ball_selected is Some;
            &&& final(data).time_started_pressing_to_rotate == rot_start
            &&& r.pad_angle == a2
            &&& r.move_selected_ball
            &&& r.charge_micro == spec_charge(*final(data), now)
            &&& final(data).next_player_ball_to_use == old(data).next_player_ball_to_use
            &&& final(data).text_success_fail_added_time == old(data).text_success_fail_added_time
            &&& final(data).time_since_level_start == old(data).time_since_level_start
            &&& final(data).is_success == old(data).is_success
            &&& final(data).stabilized == old(data).stabilized
            &&& final(data).balls_text == old(data).balls_text
            &&& final(data).levels_text == old(data).levels_text
            &&& fire_down ==> {
                &&& final(data).player_start_press_to_fire_time == Some(now)
                &&& r.launch is None
                &&& final(data).nb_ball_fired == old(data).nb_ball_fired
                &&& final(data).last_ball_fire_time == old(data).last_ball_fire_time
                &&& final(current).player_ball_selected == old(current).player_ball_selected
            }
            &&& throws ==> {
                &&& r.launch == Some(Launch {
                    ball: old(current).player_ball_selected->0,
                    power_micro: (MIN_POWER_MICRO + 110 * spec_charge(*old(data), now)) as u64,
                    pad_angle: a2->0,
                })
                &&& final(current).player_ball_selected is None
                &&& final(data).player_start_press_to_fire_time is None
                &&& final(data).last_ball_fire_time == Some(now)
                &&& final(data).nb_ball_fired == spec_min(
                    old(data).nb_ball_fired + 1,
                    usize::MAX as int,
                )
            }
            &&& !fire_down && !throws ==> {
                &&& r.launch is None
                &&& final(data).player_start_press_to_fire_time == old(data).player_start_press_to_fire_time
                &&& final(data).nb_ball_fired == old(data).nb_ball_fired
                &&& final(data).last_ball_fire_time == old(data).last_ball_fire_time
                &&& final(current).player_ball_selected == old(current).player_ball_selected
            }
        },
{
    let level_data = match current.data() {
        Some(l) => l,
        None => {
            return PlayerControl { pad_angle, launch: None, charge_micro: 0, move_selected_ball: false };
        },
    };
    if data.text_success_fail_added_time.is_some() {
        return PlayerControl {
            pad_angle,
            launch: None,
            charge_micro: charge(data, now),
            move_selected_ball: true,
        };
    }
    let dir = level_data.player_direction;
    let (left, right) = dir.rotation_buttons();
    if input.is_just_pressed(left) || input.is_just_pressed(right) {
        data.time_started_pressing_to_rotate = now;
    }
    let change = rotation_change(delta_us, elapsed(now, data.time_started_pressing_to_rotate));
    let mut angle = pad_angle;
    if input.is_pressed(left) {
        if let Some(a) = angle {
            angle = Some(rotate_launch_pad(dir, a, change, true));
        }
    }
    if input.is_pressed(right) {
        if let Some(a) = angle {
            angle = Some(rotate_launch_pad(dir, a, change, false));
        }
    }
    let mut launch: Option<Launch> = None;
    if input.is_just_pressed(Button::East) {
        data.player_start_press_to_fire_time = Some(now);
    } else if input.is_just_released(Button::East) {
        if let Some(a) = angle {
            if let Some(ball) = current.player_ball_selected {
                launch = Some(Launch { ball, power_micro: launch_power(data, now), pad_angle: a });
                current.player_ball_selected = None;
                data.player_start_press_to_fire_time = None;
                data.last_ball_fire_time = Some(now);
                data.nb_ball_fired = data.nb_ball_fired.saturating_add(1);
            }
        }
    }
    PlayerControl { pad_angle: angle, launch, charge_micro: charge(data, now), move_selected_ball: true }
}

/// Puts the next ball of the loadout on the pad once the cooldown after the
/// last throw is over and the pad is empty. Returns its place in the loadout
/// and its kind; the caller spawns it and records it as the ball on the pad.
pub fn spawn_player_ball_update(data: &mut InGameData, current: &CurrentLevel, now: u64) -> (r: Option<(usize, PlayerBall)>)
    requires
        current.wf(),
    ensures
        ({
            let cooled = match old(data).last_ball_fire_time {
                Some(t) => now >= t && now - t >= FIRE_COOLDOWN_US,
                None => true,
            };
            let next = old(data).next_player_ball_to_use;
            let spawns = cooled && current.player_ball_selected is None && current.level_index is Some
                && next < spec_level_balls(current.level_index->0 as int).len();
            &&& spawns ==> {
                &&& r == Some((next, spec_level_balls(current.level_index->0 as int)[next as int]))
                &&& *final(data) == (InGameData { next_player_ball_to_use: (next + 1) as usize, ..*old(data) })
            }
            &&& !spawns ==> r is None && *final(data) == *old(data)
        }),
{
    let cooled = match data.last_ball_fire_time {
        Some(t) => now >= t && now - t >= FIRE_COOLDOWN_US,
        None => true,
    };
    if !cooled {
        return None;
    }
    if current.player_ball_selected.is_some() {
        return None;
    }
    let level_data = match current.data() {
        Some(l) => l,
        None => return None,
    };
    let next = data.next_player_ball_to_use;
    match level_data.player_ball_at(next) {
        Some(ball) => {
            data.next_player_ball_to_use = next + 1;
            Some((next, ball))
        },
        None => None,
    }
}

/// Records whether every body is at rest.
pub fn check_stabilized(data: &mut InGameData, at_rest: &Vec<bool>)
    ensures
        *final(data) == (InGameData {
            stabilized: forall|k: int| 0 <= k < at_rest@.len() ==> at_rest@[k],
            ..*old(data)
        }),
{
    let mut all = true;
    let mut i: usize = 0;
    while i < at_rest.len()
        invariant
            i <= at_rest@.len(),
            all == forall|k: int| 0 <= k < i ==> at_rest@[k],
        decreases at_rest@.len() - i,
    {
        if !at_rest[i] {
            all = false;
        }
        i = i + 1;
    }
    data.stabilized = all;
}

/// Decides the end of the level. With no hostile enemy left the level is
/// won; with every ball thrown and everything at rest it is lost. Three
/// seconds after that, once the screen is uncovered and no fade runs or
/// waits, the next level (on a win) or a retry (on a loss) is asked for,
/// behind a fade-out.
pub fn detect_finish_level(
    data: &mut InGameData,
    current: &CurrentLevel,
    wanted: &mut WantedLevel,
    fade: &mut FadeExternalData,
    enemy_count: usize,
    now: u64,
)
    requires
        current.wf(),
    ensures
        ({
            let d = *old(data);
            let f = *old(fade);
            match d.text_success_fail_added_time {
                Some(t) => {
                    let ready = !(now < t || now - t < FINISH_GRACE_US) && !f.is_current_transitioning
                        && f.is_fading_in && !f.request.request_valid;
                    &&& *final(data) == d
                    &&& !ready ==> *final(wanted) == *old(wanted) && *final(fade) == f
                    &&& ready ==> {
                        &&& *final(fade) == (FadeExternalData {
                            request: crate::fade_transition::FadeRequestData {
                                request_valid: true,
                                is_fade_in: false,
                                speed: TransitionSpeed::Medium,
                                transition_type: FadeTransitionType::Vertical,
                            },
                            ..f
                        })
                        &&& d.is_success ==> *final(wanted) == WantedLevel(
                            Some(
                                match current.level_index {
                                    Some(i) => (i + 1) as usize,
                                    None => usize::MAX,
                                },
                            ),
                            old(wanted).1,
                        )
                        &&& !d.is_success ==> final(wanted).0 == old(wanted).0
                            && final(wanted).1 == Some(
                            spec_min(spec_count(old(wanted).1) + 1, usize::MAX as int) as usize,
                        )
                    }
                },
                None => {
                    let lost = d.stabilized && current.level_index is Some && d.nb_ball_fired
                        == spec_level_balls(current.level_index->0 as int).len();
                    &&& *final(wanted) == *old(wanted)
                    &&& *final(fade) == f
                    &&& enemy_count == 0 ==> *final(data) == (InGameData {
                        text_success_fail_added_time: Some(now),
                        is_success: true,
                        ..d
                    })
                    &&& enemy_count != 0 && lost ==> *final(data) == (InGameData {
                        text_success_fail_added_time: Some(now),
                        is_success: false,
                        ..d
                    })
                    &&& enemy_count != 0 && !lost ==> *final(data) == d
                }
            }
        }),
{
    if let Some(t) = data.text_success_fail_added_time {
        if now < t || now - t < FINISH_GRACE_US {
            return;
        }
        if fade.is_current_transitioning || !fade.is_fading_in || fade.request.request_valid {
            return;
        }
        if data.is_success {
            let next = match current.id() {
                Some(i) => i + 1,
                None => usize::MAX,
            };
            wanted.0 = Some(next);
        } else {
            let count: usize = match wanted.1 {
                Some(c) => c,
                None => 0,
            };
            wanted.1 = Some(count.saturating_add(1));
        }
        fade.request_fade(false, TransitionSpeed::Medium, FadeTransitionType::Vertical);
        return;
    }
    if enemy_count == 0 {
        data.text_success_fail_added_time = Some(now);
        data.is_success = true;
    } else if data.stabilized {
        if let Some(l) = current.data() {
            if data.nb_ball_fired == l.player_balls.len() {
                data.text_success_fail_added_time = Some(now);
                data.is_success = false;
            }
        }
    }
}

/// Leaving the game: no level, no pad, no ball.
pub fn in_game_exit(current: &mut CurrentLevel)
    ensures
        final(current).wf(),
        final(current).level_index is None,
        final(current).player_entity is None,
        final(current).player_ball_selected is None,
{
    *current = CurrentLevel::new();
}

} // verus!
