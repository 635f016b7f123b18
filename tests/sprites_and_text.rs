use ball_battle::ball_type::EnemyBall;
use ball_battle::level::{triangle, Point};
use ball_battle::sound_manager::{SoundId, SoundManagerRuntimeData};
use ball_battle::input::{Button, GamepadInput};
use ball_battle::render::{AffineSprite, RepeatedSprite};
use ball_battle::text::{first_free_slot, Size, Text, TextAlignment, TextContent, TextVisibility};

#[test]
fn affine_sprite_flags() {
    assert!(AffineSprite::enabled().enable);
    assert!(!AffineSprite::default().enable);
}

#[test]
fn default_repeat_is_single_tile() {
    let s = RepeatedSprite::default();
    assert_eq!(s, RepeatedSprite { rows: 1, cols: 1, x_size: 64, y_size: 64 });
    assert_eq!(s.tile_positions(10, 20), vec![(10, 20)]);
}

#[test]
fn grid_tiles_row_by_row() {
    let s = RepeatedSprite { rows: 2, cols: 3, x_size: 16, y_size: 8 };
    assert_eq!(
        s.tile_positions(0, 0),
        vec![(0, 0), (16, 0), (32, 0), (0, 8), (16, 8), (32, 8)]
    );
    let empty = RepeatedSprite { rows: 0, cols: 3, x_size: 16, y_size: 8 };
    assert!(empty.tile_positions(0, 0).is_empty());
}

#[test]
fn tiles_off_screen_on_both_axes_are_skipped() {
    let s = RepeatedSprite { rows: 1, cols: 2, x_size: 300, y_size: 64 };
    // The second tile is right of the screen and the row is below it.
    assert_eq!(s.tile_positions(0, 200), vec![(0, 200)]);
    // Off to the right but on screen vertically: kept.
    assert_eq!(s.tile_positions(0, 10), vec![(0, 10), (300, 10)]);
}

#[test]
fn text_update_only_on_change() {
    let t = Text { text: TextContent::Ref("Balls: 1/3 "), alignment: TextAlignment::Right, size: Size::Small };
    assert!(t.update(TextContent::Ref("Balls: 1/3 ")).is_none());
    let n = t.update(TextContent::Ref("Balls: 0/3 ")).unwrap();
    assert_eq!(n.text.as_ref(), Some("Balls: 0/3 "));
    assert_eq!(n.alignment, TextAlignment::Right);
    assert!(t.update(TextContent::No).is_some());
    let none = Text::default();
    assert!(none.update(TextContent::No).is_none());
    assert_eq!(Text::from("Credit ").text.as_ref(), Some("Credit "));
    assert_eq!(t.with_content(TextContent::No).text.as_ref(), None);
    assert!(TextVisibility::default().visible);
    assert_eq!(Size::default(), Size::Medium);
}

#[test]
fn renderer_slots() {
    assert_eq!(first_free_slot(&[true, true, false, true, false]), Some(2));
    assert_eq!(first_free_slot(&[false; 5]), Some(0));
    assert_eq!(first_free_slot(&[true; 5]), None);
}

#[test]
fn any_button_detection() {
    let mut input = GamepadInput::idle();
    assert!(!input.any_just_pressed());
    input.pressed.push(Button::Select);
    assert!(!input.any_just_pressed());
    assert!(input.is_pressed(Button::Select));
    input.just_pressed.push(Button::RightTrigger);
    assert!(input.any_just_pressed());
    assert!(!input.is_just_released(Button::RightTrigger));
}

#[test]
fn theme_changes_only_when_different() {
    let mut s = SoundManagerRuntimeData::new(true);
    assert!(s.change_main_sound(SoundId(1)));
    assert_eq!(s.current_main_theme, Some(SoundId(1)));
    assert!(!s.change_main_sound(SoundId(1)));
    assert!(s.change_main_sound(SoundId(2)));
    assert!(s.play_sound_effect());
    let mut off = SoundManagerRuntimeData::new(false);
    assert!(!off.change_main_sound(SoundId(1)));
    assert_eq!(off.current_main_theme, None);
    assert!(!off.play_sound_effect());
}

#[test]
fn triangle_rows() {
    let t = triangle(EnemyBall::GreenBlob, 3, Point { x: 100, y: 50 }, Point { x: 4, y: 10 }, Point { x: 2, y: 0 });
    let pts: Vec<(i32, i32)> = t.iter().map(|(_, p)| (p.x, p.y)).collect();
    assert_eq!(pts, vec![(100, 50), (106, 60), (98, 40), (112, 70), (104, 50), (96, 30)]);
    assert!(t.iter().all(|(b, _)| *b == EnemyBall::GreenBlob));
    assert!(triangle(EnemyBall::Snake, 0, Point { x: 0, y: 0 }, Point { x: 1, y: 1 }, Point { x: 1, y: 1 }).is_empty());
}
