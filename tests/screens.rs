use ball_battle::fade_transition::{FadeExternalData, FadeTransitionType, TransitionSpeed};
use ball_battle::game_state::game_state_credit::{
    credit_enter, credit_exit, credit_lines, exit_button_visibility_update, input_update,
    text_rolling_update, transitioning_to_main_menu_update, CreditSpawn,
};
use ball_battle::game_state::game_state_game_init::game_init_fixed_update;
use ball_battle::game_state::game_state_in_game::WantedLevel;
use ball_battle::game_state::game_state_main_menu::{
    main_menu_enter, main_menu_input_update, main_menu_selection_cursor_animation_update,
    transitioning_to_next_state_update, MenuInput,
};
use ball_battle::game_state::game_state_splash_screen::{
    splash_screen_enter, splash_screen_exit, splash_screen_fixed_update, SplashScreenRuntimeData,
};
use ball_battle::game_state::MyGameState;
use ball_battle::input::{Button, GamepadInput};
use ball_battle::utils::EntityId;

#[test]
fn init_goes_to_splash() {
    assert_eq!(MyGameState::default(), MyGameState::GameInit);
    assert_eq!(game_init_fixed_update(), MyGameState::SplashScreen);
}

#[test]
fn splash_fades_out_then_goes_to_menu() {
    let mut data = SplashScreenRuntimeData::new();
    let mut fade = FadeExternalData::new();
    splash_screen_enter(&mut data, &mut fade, EntityId(11));
    assert_eq!(data.entity, Some(EntityId(11)));
    assert!(fade.request.is_fade_in);
    assert_eq!(fade.request.transition_type, FadeTransitionType::Horizontal);
    // The fade-in request still waits: the fade-out is not taken yet.
    assert_eq!(splash_screen_fixed_update(&mut data, &mut fade, 20_000), None);
    assert!(!data.is_fading_out_of_splash_screen);
    fade = FadeExternalData::new();
    assert_eq!(splash_screen_fixed_update(&mut data, &mut fade, 10_000), None);
    assert!(!data.is_fading_out_of_splash_screen);
    assert_eq!(splash_screen_fixed_update(&mut data, &mut fade, 15_625), None);
    assert!(data.is_fading_out_of_splash_screen);
    assert_eq!(fade.request.speed, TransitionSpeed::Fast);
    assert!(!fade.request.is_fade_in);
    assert_eq!(splash_screen_fixed_update(&mut data, &mut fade, 20_000), None);
    fade = FadeExternalData::new();
    assert_eq!(splash_screen_fixed_update(&mut data, &mut fade, 20_000), Some(MyGameState::MainMenu));
    assert_eq!(splash_screen_fixed_update(&mut data, &mut fade, 20_000), None);
    assert_eq!(splash_screen_exit(&data), Some(EntityId(11)));
}

#[test]
fn menu_moves_cursor_and_confirms() {
    let mut fade = FadeExternalData::new();
    let mut data = main_menu_enter(&mut fade);
    assert!(data.is_selected_start_button);
    assert!(fade.request.request_valid && fade.request.is_fade_in);
    let mut down = GamepadInput::idle();
    down.pressed.push(Button::DPadDown);
    // Blocked while the fade-in waits.
    let r = main_menu_input_update(&mut data, &down, &mut fade);
    assert_eq!(r, MenuInput { moved_up: false, moved_down: false, confirmed: false });
    fade = FadeExternalData::new();
    let r = main_menu_input_update(&mut data, &down, &mut fade);
    assert_eq!(r, MenuInput { moved_up: false, moved_down: true, confirmed: false });
    assert!(!data.is_selected_start_button);
    let mut a = GamepadInput::idle();
    a.just_pressed.push(Button::East);
    let r = main_menu_input_update(&mut data, &a, &mut fade);
    assert!(r.confirmed);
    assert!(data.is_transitioning_out);
    assert_eq!(data.target_next_state, MyGameState::Credit);
    assert!(fade.request.request_valid && !fade.request.is_fade_in);
    let mut wanted = WantedLevel(Some(3), None);
    assert_eq!(transitioning_to_next_state_update(&mut data, &mut wanted, &fade), None);
    fade = FadeExternalData::new();
    assert_eq!(transitioning_to_next_state_update(&mut data, &mut wanted, &fade), Some(MyGameState::Credit));
    assert_eq!(wanted.0, Some(0));
    assert_eq!(transitioning_to_next_state_update(&mut data, &mut wanted, &fade), None);
}

#[test]
fn menu_up_returns_to_start() {
    let mut fade = FadeExternalData::new();
    let mut data = main_menu_enter(&mut fade);
    fade = FadeExternalData::new();
    data.is_selected_start_button = false;
    data.timer = 123;
    let mut up = GamepadInput::idle();
    up.pressed.push(Button::DPadUp);
    let r = main_menu_input_update(&mut data, &up, &mut fade);
    assert!(r.moved_up);
    assert!(data.is_selected_start_button);
    assert_eq!(data.timer, 0);
    let mut a = GamepadInput::idle();
    a.just_pressed.push(Button::East);
    main_menu_input_update(&mut data, &a, &mut fade);
    assert_eq!(data.target_next_state, MyGameState::InGame);
}

#[test]
fn cursor_blinks() {
    let mut fade = FadeExternalData::new();
    let mut data = main_menu_enter(&mut fade);
    assert_eq!(main_menu_selection_cursor_animation_update(&mut data, 400_000), (true, false));
    assert_eq!(main_menu_selection_cursor_animation_update(&mut data, 100_000), (false, false));
    assert_eq!(data.timer, 0);
    assert_eq!(main_menu_selection_cursor_animation_update(&mut data, 199_999), (false, false));
    assert_eq!(main_menu_selection_cursor_animation_update(&mut data, 1), (true, false));
}

#[test]
fn credits_roll_and_leave() {
    assert_eq!(credit_lines(), vec!["\u{E002}R and H ", "\u{E002}CanariPack 8BIT ", "\u{E002}QuinqueFive font  "]);
    let mut fade = FadeExternalData::new();
    let mut data = credit_enter(&mut fade, Some(EntityId(1)), Some(EntityId(2)));
    assert!(fade.request.is_fade_in);
    fade = FadeExternalData::new();
    assert_eq!(text_rolling_update(&mut data, 9_999_999, false, false), CreditSpawn::Nothing);
    assert!(!data.text_to_quit_added);
    assert_eq!(text_rolling_update(&mut data, 1, false, false), CreditSpawn::ThankYou);
    data.thank_you_text = Some(EntityId(3));
    assert_eq!(text_rolling_update(&mut data, 10, false, true), CreditSpawn::Nothing);
    assert_eq!(text_rolling_update(&mut data, 10, true, true), CreditSpawn::PressAnyInput);
    data.exit_text_entity = Some(EntityId(4));
    assert_eq!(text_rolling_update(&mut data, 10, true, true), CreditSpawn::Nothing);
    assert!(!input_update(&mut data, &GamepadInput::idle(), &mut fade));
    let mut start = GamepadInput::idle();
    start.just_pressed.push(Button::Start);
    assert!(input_update(&mut data, &start, &mut fade));
    assert!(data.is_transitioning_out);
    assert_eq!(fade.request.speed, TransitionSpeed::Fast);
    assert!(!fade.request.is_fade_in);
    assert_eq!(transitioning_to_main_menu_update(&mut data, &fade), None);
    fade = FadeExternalData::new();
    assert_eq!(transitioning_to_main_menu_update(&mut data, &fade), Some(MyGameState::MainMenu));
    assert_eq!(transitioning_to_main_menu_update(&mut data, &fade), None);
    assert_eq!(credit_exit(&data), vec![EntityId(1), EntityId(2), EntityId(4), EntityId(3)]);
}

#[test]
fn credits_ignore_input_before_prompt() {
    let mut fade = FadeExternalData::new();
    let mut data = credit_enter(&mut fade, None, None);
    fade = FadeExternalData::new();
    let mut a = GamepadInput::idle();
    a.just_pressed.push(Button::East);
    assert!(!input_update(&mut data, &a, &mut fade));
    assert!(!fade.request.request_valid);
    assert!(credit_exit(&data).is_empty());
}

#[test]
fn exit_prompt_blinks() {
    let mut fade = FadeExternalData::new();
    let mut data = credit_enter(&mut fade, None, None);
    assert!(!exit_button_visibility_update(&mut data, 900_000));
    data.exit_text_entity = Some(EntityId(8));
    assert!(!exit_button_visibility_update(&mut data, 799_999));
    assert!(exit_button_visibility_update(&mut data, 1));
    assert!(!data.should_exit_button_visible);
    assert!(exit_button_visibility_update(&mut data, 200_000));
    assert!(data.should_exit_button_visible);
}
