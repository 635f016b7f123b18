use vstd::prelude::*;

use crate::utils::{EntityId, MICROS_PER_UNIT, SCREEN_HEIGHT, SCREEN_WIDTH};

verus! {

/// Horizontal extent of the screen center, in millionths of a pixel.
pub const CENTER_X_MICRO: u64 = 120_000_000;

/// Vertical extent of the screen center, in millionths of a pixel.
pub const CENTER_Y_MICRO: u64 = 80_000_000;

/// The corner of the screen a fade panel is pinned to.
#[derive(Clone, Copy, PartialEq, Eq, Debug, Structural)]
pub enum VisualPivotType {
    TopLeft,
    TopRight,
    BottomRight,
    BottomLeft,
}

/// The axis the panels slide along.
#[derive(Clone, Copy, PartialEq, Eq, Debug, Structural)]
pub enum FadeTransitionType {
    Horizontal,
    Vertical,
}

#[derive(Clone, Copy, PartialEq, Eq, Debug, Structural)]
pub enum TransitionSpeed {
    Slow,
    Medium,
    Fast,
}

/// State of the running fade. Offsets are in millionths of a pixel.
#[derive(Clone, Copy, PartialEq, Eq, Debug, Structural)]
pub struct FadeRuntimeData {
    pub is_transitioning: bool,
    pub is_fading_in: bool,
    pub transition_type: FadeTransitionType,
    pub transition_speed: TransitionSpeed,
    pub offset_x: u64,
    pub offset_y: u64,
    pub top_left: Option<EntityId>,
    pub top_right: Option<EntityId>,
    pub bottom_right: Option<EntityId>,
    pub bottom_left: Option<EntityId>,
}

/// The single-slot mailbox through which the game asks for a fade.
#[derive(Clone, Copy, PartialEq, Eq, Debug, Structural)]
pub struct FadeRequestData {
    pub request_valid: bool,
    pub is_fade_in: bool,
    pub speed: TransitionSpeed,
    pub transition_type: FadeTransitionType,
}

/// What the rest of the game sees of the fade engine, and its request slot.
#[derive(Clone, Copy, PartialEq, Eq, Debug, Structural)]
pub struct FadeExternalData {
    pub is_current_transitioning: bool,
    pub is_fading_in: bool,
    pub request: FadeRequestData,
}

pub open spec fn spec_speed_px_per_sec(s: TransitionSpeed) -> u64 {
    match s {
        TransitionSpeed::Slow => 50,
        TransitionSpeed::Medium => 60,
        TransitionSpeed::Fast => 70,
    }
}

/// Distance the panels travel in `delta_us` microseconds, in millionths of a pixel.
pub open spec fn spec_step(s: TransitionSpeed, delta_us: u64) -> int {
    spec_speed_px_per_sec(s) * delta_us
}

/// Offset after moving `step` toward zero, stopping at zero.
pub open spec fn spec_toward_zero(offset: u64, step: int) -> u64 {
    if step >= offset {
        0
    } else {
        (offset - step) as u64
    }
}

/// Offset after moving `step` toward `target`, stopping at it.
pub open spec fn spec_toward_target(offset: u64, step: int, target: u64) -> u64 {
    if offset + step >= target {
        target
    } else {
        (offset + step) as u64
    }
}

impl FadeRuntimeData {
    /// Offsets stay between zero and the screen center.
    pub open spec fn wf(&self) -> bool {
        self.offset_x <= CENTER_X_MICRO && self.offset_y <= CENTER_Y_MICRO
    }

    /// The runtime after a request is taken: a fade-in starts fully covered,
    /// a fade-out starts uncovered on the axis it slides along.
    pub open spec fn spec_started(self, req: FadeRequestData) -> FadeRuntimeData {
        FadeRuntimeData {
            is_transitioning: true,
            is_fading_in: req.is_fade_in,
            transition_type: req.transition_type,
            transition_speed: req.speed,
            offset_x: if !req.is_fade_in && req.transition_type == FadeTransitionType::Vertical {
                0
            } else {
                CENTER_X_MICRO
            },
            offset_y: if !req.is_fade_in && req.transition_type == FadeTransitionType::Horizontal {
                0
            } else {
                CENTER_Y_MICRO
            },
            ..self
        }
    }

    /// The runtime after the panels moved for `delta_us` microseconds: a
    /// vertical fade slides the x offset, a horizontal one the y offset; a
    /// fade-in ends at zero and a fade-out at the screen center.
    pub open spec fn spec_animated(self, delta_us: u64) -> FadeRuntimeData {
        let step = spec_step(self.transition_speed, delta_us);
        if self.transition_type == FadeTransitionType::Vertical {
            let x = if self.is_fading_in {
                spec_toward_zero(self.offset_x, step)
            } else {
                spec_toward_target(self.offset_x, step, CENTER_X_MICRO)
            };
            let done = if self.is_fading_in { x == 0 } else { x == CENTER_X_MICRO };
            FadeRuntimeData { offset_x: x, is_transitioning: !done, ..self }
        } else {
            let y = if self.is_fading_in {
                spec_toward_zero(self.offset_y, step)
            } else {
                spec_toward_target(self.offset_y, step, CENTER_Y_MICRO)
            };
            let done = if self.is_fading_in { y == 0 } else { y == CENTER_Y_MICRO };
            FadeRuntimeData { offset_y: y, is_transitioning: !done, ..self }
        }
    }

    pub open spec fn spec_panel(self, vpt: VisualPivotType) -> Option<EntityId> {
        match vpt {
            VisualPivotType::TopLeft => self.top_left,
            VisualPivotType::TopRight => self.top_right,
            VisualPivotType::BottomRight => self.bottom_right,
            VisualPivotType::BottomLeft => self.bottom_left,
        }
    }

    /// An idle runtime with the screen uncovered and no panels yet.
    pub fn new() -> (r: FadeRuntimeData)
        ensures
            r.wf(),
            !r.is_transitioning,
            !r.is_fading_in,
            r.offset_x == 0 && r.offset_y == 0,
            r.transition_type == FadeTransitionType::Horizontal,
            r.transition_speed == TransitionSpeed::Slow,
            r.top_left is None && r.top_right is None,
            r.bottom_right is None && r.bottom_left is None,
    {
        FadeRuntimeData {
            is_transitioning: false,
            is_fading_in: false,
            transition_type: FadeTransitionType::Horizontal,
            transition_speed: TransitionSpeed::Slow,
            offset_x: 0,
            offset_y: 0,
            top_left: None,
            top_right: None,
            bottom_right: None,
            bottom_left: None,
        }
    }

    /// The panel pinned to a corner.
    pub fn panel(&self, vpt: VisualPivotType) -> (r: Option<EntityId>)
        ensures
            r == self.spec_panel(vpt),
    {
        match vpt {
            VisualPivotType::TopLeft => self.top_left,
            VisualPivotType::TopRight => self.top_right,
            VisualPivotType::BottomRight => self.bottom_right,
            VisualPivotType::BottomLeft => self.bottom_left,
        }
    }

    /// Pins a panel to a corner; the other corners keep theirs.
    pub fn set_panel(&mut self, vpt: VisualPivotType, entity: Option<EntityId>)
        ensures
            final(self).spec_panel(vpt) == entity,
            forall|other: VisualPivotType|
                other != vpt ==> #[trigger] final(self).spec_panel(other) == old(self).spec_panel(other),
            final(self).is_transitioning == old(self).is_transitioning,
            final(self).is_fading_in == old(self).is_fading_in,
            final(self).transition_type == old(self).transition_type,
            final(self).transition_speed == old(self).transition_speed,
            final(self).offset_x == old(self).offset_x,
            final(self).offset_y == old(self).offset_y,
    {
        match vpt {
            VisualPivotType::TopLeft => self.top_left = entity,
            VisualPivotType::TopRight => self.top_right = entity,
            VisualPivotType::BottomRight => self.bottom_right = entity,
            VisualPivotType::BottomLeft => self.bottom_left = entity,
        }
    }
}

impl FadeRequestData {
    /// An empty mailbox.
    pub fn new() -> (r: FadeRequestData)
        ensures
            !r.request_valid,
            !r.is_fade_in,
            r.speed == TransitionSpeed::Slow,
            r.transition_type == FadeTransitionType::Horizontal,
    {
        FadeRequestData {
            request_valid: false,
            is_fade_in: false,
            speed: TransitionSpeed::Slow,
            transition_type: FadeTransitionType::Horizontal,
        }
    }
}

impl FadeExternalData {
    /// Idle, uncovered, with an empty mailbox.
    pub fn new() -> (r: FadeExternalData)
        ensures
            !r.is_current_transitioning,
            !r.is_fading_in,
            !r.request.request_valid,
    {
        FadeExternalData {
            is_current_transitioning: false,
            is_fading_in: false,
            request: FadeRequestData::new(),
        }
    }

    pub open spec fn spec_busy(self) -> bool {
        self.is_current_transitioning || self.request.request_valid
    }

    /// Whether a fade runs or waits to start.
    pub fn is_busy(&self) -> (r: bool)
        ensures
            r == self.spec_busy(),
    {
        self.is_current_transitioning || self.request.request_valid
    }

    /// Puts a request in the mailbox. It is taken only while no fade runs and
    /// none waits; otherwise it is dropped and nothing changes.
    pub fn request_fade(
        &mut self,
        is_fade_in: bool,
        speed: TransitionSpeed,
        transition_type: FadeTransitionType,
    ) -> (accepted: bool)
        ensures
            accepted == !old(self).spec_busy(),
            accepted ==> *final(self) == (FadeExternalData {
                request: FadeRequestData { request_valid: true, is_fade_in, speed, transition_type },
                ..*old(self)
            }),
            !accepted ==> *final(self) == *old(self),
    {
        if self.is_busy() {
            return false;
        }
        self.request = FadeRequestData { request_valid: true, is_fade_in, speed, transition_type };
        true
    }
}

/// Where the panel of a corner sits relative to the shared pivot, in pixels.
pub fn panel_visual_offset(vpt: VisualPivotType) -> (r: (i32, i32))
    ensures
        r == match vpt {
            VisualPivotType::TopLeft => (0i32, 0i32),
            VisualPivotType::TopRight => (-120i32, 0i32),
            VisualPivotType::BottomRight => (-120i32, -80i32),
            VisualPivotType::BottomLeft => (0i32, -80i32),
        },
{
    match vpt {
        VisualPivotType::TopLeft => (0, 0),
        VisualPivotType::TopRight => (-120, 0),
        VisualPivotType::BottomRight => (-120, -80),
        VisualPivotType::BottomLeft => (0, -80),
    }
}

/// Position of a corner's panel for the current offset, in millionths of a pixel.
pub fn panel_translation(runtime: &FadeRuntimeData, vpt: VisualPivotType) -> (r: (i64, i64))
    requires
        runtime.wf(),
    ensures
        ({
            let w = SCREEN_WIDTH * MICROS_PER_UNIT;
            let h = SCREEN_HEIGHT * MICROS_PER_UNIT;
            let ox = runtime.offset_x as int;
            let oy = runtime.offset_y as int;
            r == match vpt {
                VisualPivotType::TopLeft => ((w - ox) as i64, (h - oy) as i64),
                VisualPivotType::TopRight => (ox as i64, (h - oy) as i64),
                VisualPivotType::BottomRight => (ox as i64, oy as i64),
                VisualPivotType::BottomLeft => ((w - ox) as i64, oy as i64),
            }
        }),
{
    let w: i64 = SCREEN_WIDTH as i64 * MICROS_PER_UNIT;
    let h: i64 = SCREEN_HEIGHT as i64 * MICROS_PER_UNIT;
    let ox: i64 = runtime.offset_x as i64;
    let oy: i64 = runtime.offset_y as i64;
    match vpt {
        VisualPivotType::TopLeft => (w - ox, h - oy),
        VisualPivotType::TopRight => (ox, h - oy),
        VisualPivotType::BottomRight => (ox, oy),
        VisualPivotType::BottomLeft => (w - ox, oy),
    }
}

/// Covers the whole screen: the panels meet at the center and the next fade is a fade-in.
pub fn set_full_fade_out(external_data: &mut FadeExternalData, runtime_data: &mut FadeRuntimeData)
    ensures
        *final(runtime_data) == (FadeRuntimeData {
            is_fading_in: true,
            is_transitioning: false,
            offset_x: CENTER_X_MICRO,
            offset_y: CENTER_Y_MICRO,
            ..*old(runtime_data)
        }),
        *final(external_data) == (FadeExternalData {
            is_current_transitioning: false,
            is_fading_in: true,
            ..*old(external_data)
        }),
{
    runtime_data.is_fading_in = true;
    runtime_data.is_transitioning = false;
    runtime_data.offset_x = CENTER_X_MICRO;
    runtime_data.offset_y = CENTER_Y_MICRO;
    external_data.is_current_transitioning = false;
    external_data.is_fading_in = runtime_data.is_fading_in;
}

/// Uncovers the whole screen: the panels sit at the corners.
pub fn set_full_fade_in(external_data: &mut FadeExternalData, runtime_data: &mut FadeRuntimeData)
    ensures
        *final(runtime_data) == (FadeRuntimeData {
            is_fading_in: false,
            is_transitioning: false,
            offset_x: 0,
            offset_y: 0,
            ..*old(runtime_data)
        }),
        *final(external_data) == (FadeExternalData {
            is_current_transitioning: false,
            is_fading_in: false,
            ..*old(external_data)
        }),
{
    runtime_data.is_fading_in = false;
    runtime_data.is_transitioning = false;
    runtime_data.offset_x = 0;
    runtime_data.offset_y = 0;
    external_data.is_current_transitioning = false;
    external_data.is_fading_in = runtime_data.is_fading_in;
}

/// Takes the waiting request, if any. While a fade runs the request is
/// dropped and the running fade goes on untouched.
pub fn start_fade_request(external_data: &mut FadeExternalData, runtime_data: &mut FadeRuntimeData)
    requires
        old(runtime_data).wf(),
    ensures
        final(runtime_data).wf(),
        !old(external_data).request.request_valid ==> *final(external_data) == *old(external_data)
            && *final(runtime_data) == *old(runtime_data),
        old(runtime_data).is_transitioning ==> *final(runtime_data) == *old(runtime_data),
        old(external_data).request.request_valid && old(runtime_data).is_transitioning
            ==> *final(external_data) == (FadeExternalData {
            request: FadeRequestData { request_valid: false, ..old(external_data).request },
            ..*old(external_data)
        }),
        old(external_data).request.request_valid && !old(runtime_data).is_transitioning ==> {
            &&& *final(runtime_data) == old(runtime_data).spec_started(old(external_data).request)
            &&& *final(external_data) == (FadeExternalData {
                is_current_transitioning: false,
                is_fading_in: old(external_data).request.is_fade_in,
                request: FadeRequestData { request_valid: false, ..old(external_data).request },
            })
        },
{
    if !external_data.request.request_valid {
        return;
    }
    if runtime_data.is_transitioning {
        external_data.request.request_valid = false;
        return;
    }
    runtime_data.is_fading_in = external_data.request.is_fade_in;
    external_data.is_fading_in = runtime_data.is_fading_in;
    runtime_data.transition_type = external_data.request.transition_type;
    runtime_data.transition_speed = external_data.request.speed;
    if runtime_data.is_fading_in {
        set_full_fade_out(external_data, runtime_data);
    } else {
        set_full_fade_in(external_data, runtime_data);
        if runtime_data.transition_type == FadeTransitionType::Vertical {
            runtime_data.offset_y = CENTER_Y_MICRO;
        } else {
            runtime_data.offset_x = CENTER_X_MICRO;
        }
    }
    runtime_data.is_transitioning = true;
    external_data.request.request_valid = false;
}

fn speed_px_per_sec(s: TransitionSpeed) -> (r: u64)
    ensures
        r == spec_speed_px_per_sec(s),
{
    match s {
        TransitionSpeed::Slow => 50,
        TransitionSpeed::Medium => 60,
        TransitionSpeed::Fast => 70,
    }
}

fn move_toward_zero(offset: u64, step: u128) -> (r: u64)
    ensures
        r == spec_toward_zero(offset, step as int),
{
    if step >= offset as u128 {
        0
    } else {
        offset - step as u64
    }
}

fn move_toward_target(offset: u64, step: u128, target: u64) -> (r: u64)
    requires
        offset <= target,
    ensures
        r == spec_toward_target(offset, step as int, target),
{
    if step >= (target - offset) as u128 {
        target
    } else {
        offset + step as u64
    }
}

/// One tick of the fade engine, `delta_us` microseconds after the previous
/// one: takes a waiting request if idle, then slides the panels and stops
/// exactly at the end of the slide.
pub fn fade_transition_update(
    external_data: &mut FadeExternalData,
    runtime_data: &mut FadeRuntimeData,
    delta_us: u64,
)
    requires
        old(runtime_data).wf(),
    ensures
        final(runtime_data).wf(),
        ({
            let ext0 = *old(external_data);
            let rt0 = *old(runtime_data);
            let starts = ext0.request.request_valid && !rt0.is_transitioning;
            let rt1 = if starts { rt0.spec_started(ext0.request) } else { rt0 };
            let rt2 = if rt1.is_transitioning { rt1.spec_animated(delta_us) } else { rt1 };
            &&& *final(runtime_data) == rt2
            &&& final(external_data).is_current_transitioning == rt2.is_transitioning
            &&& final(external_data).is_fading_in == if starts {
                ext0.request.is_fade_in
            } else {
                ext0.is_fading_in
            }
            &&& final(external_data).request == (FadeRequestData {
                request_valid: false,
                ..ext0.request
            })
        }),
{
    if external_data.request.request_valid {
        start_fade_request(external_data, runtime_data);
    }
    if !runtime_data.is_transitioning {
        external_data.is_current_transitioning = runtime_data.is_transitioning;
        return;
    }
    let speed = speed_px_per_sec(runtime_data.transition_speed);
    assert(speed as u128 * delta_us as u128 <= 70 * 0xffff_ffff_ffff_ffffu128) by (nonlinear_arith)
        requires
            speed <= 70,
    ;
    let step: u128 = speed as u128 * delta_us as u128;
    if runtime_data.transition_type == FadeTransitionType::Vertical {
        if runtime_data.is_fading_in {
            runtime_data.offset_x = move_toward_zero(runtime_data.offset_x, step);
            if runtime_data.offset_x == 0 {
                runtime_data.is_transitioning = false;
            }
        } else {
            runtime_data.offset_x = move_toward_target(runtime_data.offset_x, step, CENTER_X_MICRO);
            if runtime_data.offset_x == CENTER_X_MICRO {
                runtime_data.is_transitioning = false;
            }
        }
    } else {
        if runtime_data.is_fading_in {
            runtime_data.offset_y = move_toward_zero(runtime_data.offset_y, step);
            if runtime_data.offset_y == 0 {
                runtime_data.is_transitioning = false;
            }
        } else {
            runtime_data.offset_y = move_toward_target(runtime_data.offset_y, step, CENTER_Y_MICRO);
            if runtime_data.offset_y == CENTER_Y_MICRO {
                runtime_data.is_transitioning = false;
            }
        }
    }
    external_data.is_current_transitioning = runtime_data.is_transitioning;
}

} // verus!
