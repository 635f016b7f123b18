use vstd::prelude::*;

use crate::fade_transition::{FadeExternalData, FadeRequestData, FadeTransitionType, TransitionSpeed};
use crate::game_state::game_state_in_game::WantedLevel;
use crate::game_state::MyGameState;
use crate::input::{Button, GamepadInput};

verus! {

/// How long the selection cursor shows during a blink, in microseconds.
pub const CURSOR_SHOWN_US: u64 = 500_000;

/// How long the selection cursor hides during a blink, in microseconds.
pub const CURSOR_HIDDEN_US: u64 = 200_000;

pub const START_GAME_TEXT: &'static str = "\u{E002}Start Game ";
pub const TITLE_TEXT: &'static str = "\u{E002}I was reincarnated as a ball ";
pub const CREDIT_TEXT: &'static str = "Credit ";

#[derive(Clone, Copy, PartialEq, Eq, Debug, Structural)]
pub struct MainMenuRuntimeData {
    pub is_selected_start_button: bool,
    pub should_selected_button_visible: bool,
    /// Time in the current blink phase, in microseconds.
    pub timer: u64,
    pub request_sent_to_next_state: bool,
    pub is_transitioning_out: bool,
    pub target_next_state: MyGameState,
}

/// What the menu's input step did, for the sounds to play.
#[derive(Clone, Copy, PartialEq, Eq, Debug, Structural)]
pub struct MenuInput {
    /// The cursor moved up to "Start Game".
    pub moved_up: bool,
    /// The cursor moved down to "Credit".
    pub moved_down: bool,
    /// The entry under the cursor was chosen.
    pub confirmed: bool,
}

pub open spec fn spec_request(is_fade_in: bool, speed: TransitionSpeed, t: FadeTransitionType) -> FadeRequestData {
    FadeRequestData { request_valid: true, is_fade_in, speed, transition_type: t }
}

/// Opens the menu on "Start Game" and asks for a vertical fade-in.
pub fn main_menu_enter(fade: &mut FadeExternalData) -> (r: MainMenuRuntimeData)
    ensures
        r == (MainMenuRuntimeData {
            is_selected_start_button: true,
            should_selected_button_visible: true,
            timer: 0,
            request_sent_to_next_state: false,
            is_transitioning_out: false,
            target_next_state: MyGameState::InGame,
        }),
        !old(fade).spec_busy() ==> final(fade).request == spec_request(
            true,
            TransitionSpeed::Medium,
            FadeTransitionType::Vertical,
        ),
        old(fade).spec_busy() ==> *final(fade) == *old(fade),
{
    fade.request_fade(true, TransitionSpeed::Medium, FadeTransitionType::Vertical);
    MainMenuRuntimeData {
        is_selected_start_button: true,
        should_selected_button_visible: true,
        timer: 0,
        request_sent_to_next_state: false,
        is_transitioning_out: false,
        target_next_state: MyGameState::InGame,
    }
}

/// Reads the d-pad and the A button, unless the menu is leaving or a fade
/// runs or waits. Up selects "Start Game", down selects "Credit" (each
/// restarting the cursor's blink), and A picks the selection and asks for a
/// vertical fade-out.
pub fn main_menu_input_update(data: &mut MainMenuRuntimeData, input: &GamepadInput, fade: &mut FadeExternalData) -> (r: MenuInput)
    ensures
        ({
            let d = *old(data);
            let f = *old(fade);
            if d.is_transitioning_out || f.spec_busy() {
                &&& r == MenuInput { moved_up: false, moved_down: false, confirmed: false }
                &&& *final(data) == d
                &&& *final(fade) == f
            } else {
                let up = input.pressed@.contains(Button::DPadUp) && !d.is_selected_start_button;
                let start1 = d.is_selected_start_button || up;
                let down = input.pressed@.contains(Button::DPadDown) && start1;
                let start2 = start1 && !down;
                let moved = up || down;
                let confirmed = input.just_pressed@.contains(Button::East);
                &&& r == MenuInput { moved_up: up, moved_down: down, confirmed }
                &&& final(data).is_selected_start_button == start2
                &&& final(data).should_selected_button_visible == (moved
                    || d.should_selected_button_visible)
                &&& final(data).timer == if moved { 0 } else { d.timer }
                &&& final(data).request_sent_to_next_state == d.request_sent_to_next_state
                &&& final(data).is_transitioning_out == confirmed
                &&& final(data).target_next_state == if !confirmed {
                    d.target_next_state
                } else if start2 {
                    MyGameState::InGame
                } else {
                    MyGameState::Credit
                }
                &&& confirmed ==> final(fade).request == spec_request(
                    false,
                    TransitionSpeed::Medium,
                    FadeTransitionType::Vertical,
                )
                &&& !confirmed ==> *final(fade) == f
            }
        }),
{
    if data.is_transitioning_out {
        return MenuInput { moved_up: false, moved_down: false, confirmed: false };
    }
    if fade.is_busy() {
        return MenuInput { moved_up: false, moved_down: false, confirmed: false };
    }
    let mut r = MenuInput { moved_up: false, moved_down: false, confirmed: false };
    if input.is_pressed(Button::DPadUp) {
        if !data.is_selected_start_button {
            r.moved_up = true;
            data.is_selected_start_button = true;
            data.should_selected_button_visible = true;
            data.timer = 0;
        }
    }
    if input.is_pressed(Button::DPadDown) {
        if data.is_selected_start_button {
            r.moved_down = true;
            data.is_selected_start_button = false;
            data.should_selected_button_visible = true;
            data.timer = 0;
        }
    }
    if input.is_just_pressed(Button::East) {
        r.confirmed = true;
        data.is_transitioning_out = true;
        if data.is_selected_start_button {
            data.target_next_state = MyGameState::InGame;
        } else {
            data.target_next_state = MyGameState::Credit;
        }
        fade.request_fade(false, TransitionSpeed::Medium, FadeTransitionType::Vertical);
    }
    r
}

/// Advances the cursor's blink by `delta_us`: shown for half a second, hidden
/// for a fifth. Returns whether the "Start Game" cursor and the "Credit"
/// cursor are visible.
pub fn main_menu_selection_cursor_animation_update(data: &mut MainMenuRuntimeData, delta_us: u64) -> (r: (bool, bool))
    ensures
        ({
            let d = *old(data);
            let t = if d.timer as int + delta_us as int > u64::MAX as int {
                u64::MAX
            } else {
                (d.timer + delta_us) as u64
            };
            let flips = if d.should_selected_button_visible {
                t >= CURSOR_SHOWN_US
            } else {
                t >= CURSOR_HIDDEN_US
            };
            let visible = if flips { !d.should_selected_button_visible } else { d.should_selected_button_visible };
            &&& *final(data) == (MainMenuRuntimeData {
                timer: if flips { 0 } else { t },
                should_selected_button_visible: visible,
                ..d
            })
            &&& r == (d.is_selected_start_button && visible, !d.is_selected_start_button && visible)
        }),
{
    data.timer = data.timer.saturating_add(delta_us);
    if data.should_selected_button_visible {
        if data.timer >= CURSOR_SHOWN_US {
            data.should_selected_button_visible = false;
            data.timer = 0;
        }
    } else {
        if data.timer >= CURSOR_HIDDEN_US {
            data.should_selected_button_visible = true;
            data.timer = 0;
        }
    }
    (
        data.is_selected_start_button && data.should_selected_button_visible,
        !data.is_selected_start_button && data.should_selected_button_visible,
    )
}

/// Once the fade-out after a choice is over, moves to the chosen state
/// (asking for the first level), exactly once.
pub fn transitioning_to_next_state_update(
    data: &mut MainMenuRuntimeData,
    wanted: &mut WantedLevel,
    fade: &FadeExternalData,
) -> (r: Option<MyGameState>)
    ensures
        ({
            let d = *old(data);
            let moves = d.is_transitioning_out && !d.request_sent_to_next_state && !fade.spec_busy();
            &&& moves ==> {
                &&& r == Some(d.target_next_state)
                &&& *final(wanted) == WantedLevel(Some(0), old(wanted).1)
                &&& *final(data) == (MainMenuRuntimeData { request_sent_to_next_state: true, ..d })
            }
            &&& !moves ==> r is None && *final(wanted) == *old(wanted) && *final(data) == d
        }),
{
    if !data.is_transitioning_out || data.request_sent_to_next_state {
        return None;
    }
    if fade.is_busy() {
        return None;
    }
    wanted.0 = Some(0);
    data.request_sent_to_next_state = true;
    Some(data.target_next_state)
}

} // verus!
