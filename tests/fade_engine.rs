use ball_battle::fade_transition::{
    fade_transition_update, panel_translation, panel_visual_offset, set_full_fade_in,
    set_full_fade_out, start_fade_request, FadeExternalData, FadeRuntimeData,
    FadeTransitionType, TransitionSpeed, VisualPivotType, CENTER_X_MICRO, CENTER_Y_MICRO,
};
use ball_battle::utils::{get_screen_center_position, get_screen_size, EntityId};

#[test]
fn screen_geometry() {
    assert_eq!(get_screen_size(), (240, 160));
    assert_eq!(get_screen_center_position(), (120, 80));
}

#[test]
fn mailbox_takes_request_only_when_idle() {
    let mut ext = FadeExternalData::new();
    assert!(!ext.is_busy());
    assert!(ext.request_fade(true, TransitionSpeed::Fast, FadeTransitionType::Vertical));
    assert!(ext.request.request_valid);
    assert!(ext.request.is_fade_in);
    assert!(ext.is_busy());
    let before = ext;
    assert!(!ext.request_fade(false, TransitionSpeed::Slow, FadeTransitionType::Horizontal));
    assert_eq!(ext, before);
}

#[test]
fn request_while_running_leaves_runtime_unchanged() {
    let mut ext = FadeExternalData::new();
    let mut rt = FadeRuntimeData::new();
    ext.request_fade(false, TransitionSpeed::Slow, FadeTransitionType::Vertical);
    fade_transition_update(&mut ext, &mut rt, 10_000);
    assert!(rt.is_transitioning);
    let running = rt;
    // A second request slips into the mailbox directly while the fade runs.
    ext.request.request_valid = true;
    ext.request.is_fade_in = true;
    ext.request.speed = TransitionSpeed::Fast;
    start_fade_request(&mut ext, &mut rt);
    assert_eq!(rt, running);
    assert!(!ext.request.request_valid);
}

#[test]
fn fade_in_starts_covered() {
    let mut ext = FadeExternalData::new();
    let mut rt = FadeRuntimeData::new();
    ext.request_fade(true, TransitionSpeed::Medium, FadeTransitionType::Horizontal);
    start_fade_request(&mut ext, &mut rt);
    assert!(rt.is_transitioning);
    assert!(rt.is_fading_in);
    assert_eq!((rt.offset_x, rt.offset_y), (CENTER_X_MICRO, CENTER_Y_MICRO));
    assert!(ext.is_fading_in);
    assert!(!ext.request.request_valid);
}

#[test]
fn fade_out_starts_open_on_its_axis() {
    let mut ext = FadeExternalData::new();
    let mut rt = FadeRuntimeData::new();
    ext.request_fade(false, TransitionSpeed::Medium, FadeTransitionType::Vertical);
    start_fade_request(&mut ext, &mut rt);
    assert_eq!((rt.offset_x, rt.offset_y), (0, CENTER_Y_MICRO));
    let mut ext2 = FadeExternalData::new();
    let mut rt2 = FadeRuntimeData::new();
    ext2.request_fade(false, TransitionSpeed::Medium, FadeTransitionType::Horizontal);
    start_fade_request(&mut ext2, &mut rt2);
    assert_eq!((rt2.offset_x, rt2.offset_y), (CENTER_X_MICRO, 0));
}

#[test]
fn slow_fade_moves_fifty_pixels_per_second() {
    let mut ext = FadeExternalData::new();
    let mut rt = FadeRuntimeData::new();
    ext.request_fade(false, TransitionSpeed::Slow, FadeTransitionType::Vertical);
    fade_transition_update(&mut ext, &mut rt, 100_000);
    // 50 px/s for 0.1 s is 5 px.
    assert_eq!(rt.offset_x, 5_000_000);
    assert!(ext.is_current_transitioning);
    fade_transition_update(&mut ext, &mut rt, 1_000_000);
    assert_eq!(rt.offset_x, 55_000_000);
}

#[test]
fn fade_stops_exactly_at_its_end() {
    let mut ext = FadeExternalData::new();
    let mut rt = FadeRuntimeData::new();
    ext.request_fade(false, TransitionSpeed::Fast, FadeTransitionType::Horizontal);
    fade_transition_update(&mut ext, &mut rt, 10_000_000);
    assert_eq!(rt.offset_y, CENTER_Y_MICRO);
    assert!(!rt.is_transitioning);
    assert!(!ext.is_current_transitioning);
    assert!(!ext.is_fading_in);
    assert!(ext.request_fade(true, TransitionSpeed::Fast, FadeTransitionType::Horizontal));
    fade_transition_update(&mut ext, &mut rt, 1_000_000);
    // 70 px/s for 1 s from the 80 px extent.
    assert_eq!(rt.offset_y, 10_000_000);
    fade_transition_update(&mut ext, &mut rt, 1_000_000);
    assert_eq!(rt.offset_y, 0);
    assert!(!ext.is_current_transitioning);
    assert!(ext.is_fading_in);
}

#[test]
fn idle_update_changes_nothing() {
    let mut ext = FadeExternalData::new();
    let mut rt = FadeRuntimeData::new();
    let before = rt;
    fade_transition_update(&mut ext, &mut rt, 500_000);
    assert_eq!(rt, before);
    assert!(!ext.is_current_transitioning);
}

#[test]
fn full_fades_set_offsets() {
    let mut ext = FadeExternalData::new();
    let mut rt = FadeRuntimeData::new();
    set_full_fade_out(&mut ext, &mut rt);
    assert_eq!((rt.offset_x, rt.offset_y), (120_000_000, 80_000_000));
    assert!(rt.is_fading_in && ext.is_fading_in);
    set_full_fade_in(&mut ext, &mut rt);
    assert_eq!((rt.offset_x, rt.offset_y), (0, 0));
    assert!(!rt.is_fading_in && !ext.is_fading_in);
}

#[test]
fn panels_follow_offset() {
    let mut rt = FadeRuntimeData::new();
    rt.offset_x = 10_000_000;
    rt.offset_y = 20_000_000;
    assert_eq!(panel_translation(&rt, VisualPivotType::TopLeft), (230_000_000, 140_000_000));
    assert_eq!(panel_translation(&rt, VisualPivotType::TopRight), (10_000_000, 140_000_000));
    assert_eq!(panel_translation(&rt, VisualPivotType::BottomRight), (10_000_000, 20_000_000));
    assert_eq!(panel_translation(&rt, VisualPivotType::BottomLeft), (230_000_000, 20_000_000));
    assert_eq!(panel_visual_offset(VisualPivotType::TopLeft), (0, 0));
    assert_eq!(panel_visual_offset(VisualPivotType::TopRight), (-120, 0));
    assert_eq!(panel_visual_offset(VisualPivotType::BottomRight), (-120, -80));
    assert_eq!(panel_visual_offset(VisualPivotType::BottomLeft), (0, -80));
}

#[test]
fn panel_slots_are_separate() {
    let mut rt = FadeRuntimeData::new();
    rt.set_panel(VisualPivotType::BottomLeft, Some(EntityId(4)));
    rt.set_panel(VisualPivotType::TopRight, Some(EntityId(2)));
    assert_eq!(rt.panel(VisualPivotType::BottomLeft), Some(EntityId(4)));
    assert_eq!(rt.panel(VisualPivotType::TopRight), Some(EntityId(2)));
    assert_eq!(rt.panel(VisualPivotType::TopLeft), None);
    assert_eq!(rt.panel(VisualPivotType::BottomRight), None);
}
