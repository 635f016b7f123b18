use vstd::prelude::*;

use crate::fade_transition::{FadeExternalData, FadeTransitionType, TransitionSpeed};
use crate::game_state::game_state_main_menu::spec_request;
use crate::game_state::MyGameState;
use crate::input::GamepadInput;
use crate::utils::EntityId;

verus! {

/// Time in the credits before the thank-you text comes in, in microseconds.
pub const TIME_TO_SPAWN_THANKS_US: u64 = 10_000_000;

/// How long the exit prompt shows during a blink, in microseconds.
pub const EXIT_SHOWN_US: u64 = 800_000;

/// How long the exit prompt hides during a blink, in microseconds.
pub const EXIT_HIDDEN_US: u64 = 200_000;

#[derive(Clone, Copy, PartialEq, Eq, Debug, Structural)]
pub struct CreditRuntimeData {
    pub is_transitioning_out: bool,
    pub request_sent_to_next_state: bool,
    pub text_to_quit_added: bool,
    pub text_thanks_added: bool,
    pub should_exit_button_visible: bool,
    /// Time in the current blink phase of the exit prompt, in microseconds.
    pub exit_button_visibility_timer: u64,
    /// Time spent in the credits, in microseconds.
    pub time_since_in_credit: u64,
    pub credit_text: Option<EntityId>,
    pub thank_you_text: Option<EntityId>,
    pub exit_text_entity: Option<EntityId>,
    pub background: Option<EntityId>,
}

/// Which text the credits bring in next.
#[derive(Clone, Copy, PartialEq, Eq, Debug, Structural)]
pub enum CreditSpawn {
    Nothing,
    ThankYou,
    PressAnyInput,
}

pub open spec fn spec_saturating_add(a: u64, b: u64) -> u64 {
    if a as int + b as int > u64::MAX as int {
        u64::MAX
    } else {
        (a + b) as u64
    }
}

/// The names shown in the rolling credits, top to bottom.
pub fn credit_lines() -> (r: Vec<&'static str>)
    ensures
        r@.len() == 3,
        r@[0] == "\u{E002}R and H ",
        r@[1] == "\u{E002}CanariPack 8BIT ",
        r@[2] == "\u{E002}QuinqueFive font  ",
{
    vec!["\u{E002}R and H ", "\u{E002}CanariPack 8BIT ", "\u{E002}QuinqueFive font  "]
}

/// Opens the credits with the given background and rolling text, and asks
/// for a vertical fade-in.
pub fn credit_enter(fade: &mut FadeExternalData, background: Option<EntityId>, credit_text: Option<EntityId>) -> (r: CreditRuntimeData)
    ensures
        r == (CreditRuntimeData {
            is_transitioning_out: false,
            request_sent_to_next_state: false,
            text_to_quit_added: false,
            text_thanks_added: false,
            should_exit_button_visible: true,
            exit_button_visibility_timer: 0,
            time_since_in_credit: 0,
            credit_text,
            thank_you_text: None,
            exit_text_entity: None,
            background,
        }),
        !old(fade).spec_busy() ==> final(fade).request == spec_request(
            true,
            TransitionSpeed::Medium,
            FadeTransitionType::Vertical,
        ),
        old(fade).spec_busy() ==> *final(fade) == *old(fade),
{
    fade.request_fade(true, TransitionSpeed::Medium, FadeTransitionType::Vertical);
    CreditRuntimeData {
        is_transitioning_out: false,
        request_sent_to_next_state: false,
        text_to_quit_added: false,
        text_thanks_added: false,
        should_exit_button_visible: true,
        exit_button_visibility_timer: 0,
        time_since_in_credit: 0,
        credit_text,
        thank_you_text: None,
        exit_text_entity: None,
        background,
    }
}

/// The entities to remove on leaving the credits.
pub fn credit_exit(data: &CreditRuntimeData) -> (r: Vec<EntityId>)
    ensures
        r@ == seq![data.background, data.credit_text, data.exit_text_entity, data.thank_you_text].filter(
            |e: Option<EntityId>| e is Some,
        ).map_values(|e: Option<EntityId>| e->0),
{
    let mut r: Vec<EntityId> = Vec::new();
    let all = [data.background, data.credit_text, data.exit_text_entity, data.thank_you_text];
    let ghost s = seq![data.background, data.credit_text, data.exit_text_entity, data.thank_you_text];
    assert(all@ == s);
    let mut i: usize = 0;
    while i < 4
        invariant
            i <= 4,
            all@ == s,
            r@ == s.take(i as int).filter(|e: Option<EntityId>| e is Some).map_values(
                |e: Option<EntityId>| e->0,
            ),
        decreases 4 - i,
    {
        proof {
            assert(s.take(i as int + 1).drop_last() == s.take(i as int));
            assert(s.take(i as int + 1).last() == s[i as int]);
        }
        if let Some(e) = all[i] {
            r.push(e);
        }
        proof {
            reveal(Seq::filter);
            assert(r@ =~= s.take(i as int + 1).filter(|e: Option<EntityId>| e is Some).map_values(
                |e: Option<EntityId>| e->0,
            ));
        }
        i = i + 1;
    }
    assert(s.take(4) == s);
    r
}

/// Once the exit prompt is up, any button leaves the credits behind a fast
/// vertical fade-out. Returns whether it did, so that the caller plays the
/// selection sound and removes the rolling text.
pub fn input_update(data: &mut CreditRuntimeData, input: &GamepadInput, fade: &mut FadeExternalData) -> (r: bool)
    ensures
        ({
            let d = *old(data);
            let any = exists|k: int|
                0 <= k < crate::input::all_buttons().len() && input.just_pressed@.contains(
                    #[trigger] crate::input::all_buttons()[k],
                );
            let leaves = !d.is_transitioning_out && d.text_to_quit_added && any
                && !old(fade).spec_busy();
            &&& r == leaves
            &&& leaves ==> {
                &&& *final(data) == (CreditRuntimeData { is_transitioning_out: true, ..d })
                &&& final(fade).request == spec_request(false, TransitionSpeed::Fast, FadeTransitionType::Vertical)
            }
            &&& !leaves ==> *final(data) == d && *final(fade) == *old(fade)
        }),
{
    if data.is_transitioning_out || !data.text_to_quit_added {
        return false;
    }
    if !input.any_just_pressed() {
        return false;
    }
    if !fade.request_fade(false, TransitionSpeed::Fast, FadeTransitionType::Vertical) {
        return false;
    }
    data.is_transitioning_out = true;
    true
}

/// Advances the credits' clock by `delta_us` and says which text comes in:
/// the thank-you text ten seconds in, then the exit prompt once only the
/// thank-you text is left and it reached its place. The caller moves the
/// texts and records the entity it spawns.
pub fn text_rolling_update(
    data: &mut CreditRuntimeData,
    delta_us: u64,
    only_thanks_left: bool,
    thanks_at_target: bool,
) -> (r: CreditSpawn)
    ensures
        ({
            let d = *old(data);
            let t = spec_saturating_add(d.time_since_in_credit, delta_us);
            let d1 = CreditRuntimeData { time_since_in_credit: t, ..d };
            if d.text_to_quit_added {
                r == CreditSpawn::Nothing && *final(data) == d1
            } else if !d.text_thanks_added && t >= TIME_TO_SPAWN_THANKS_US {
                r == CreditSpawn::ThankYou && *final(data) == (CreditRuntimeData {
                    text_thanks_added: true,
                    ..d1
                })
            } else if only_thanks_left && thanks_at_target {
                r == CreditSpawn::PressAnyInput && *final(data) == (CreditRuntimeData {
                    text_to_quit_added: true,
                    ..d1
                })
            } else {
                r == CreditSpawn::Nothing && *final(data) == d1
            }
        }),
{
    data.time_since_in_credit = data.time_since_in_credit.saturating_add(delta_us);
    if data.text_to_quit_added {
        CreditSpawn::Nothing
    } else if !data.text_thanks_added && data.time_since_in_credit >= TIME_TO_SPAWN_THANKS_US {
        data.text_thanks_added = true;
        CreditSpawn::ThankYou
    } else if only_thanks_left && thanks_at_target {
        data.text_to_quit_added = true;
        CreditSpawn::PressAnyInput
    } else {
        CreditSpawn::Nothing
    }
}

/// Blinks the exit prompt once it is up: shown for 0.8 s, hidden for 0.2 s.
/// Returns whether its visibility changed.
pub fn exit_button_visibility_update(data: &mut CreditRuntimeData, delta_us: u64) -> (r: bool)
    ensures
        ({
            let d = *old(data);
            let t = spec_saturating_add(d.exit_button_visibility_timer, delta_us);
            let flips = if d.should_exit_button_visible {
                t >= EXIT_SHOWN_US
            } else {
                t >= EXIT_HIDDEN_US
            };
            if d.exit_text_entity is None {
                !r && *final(data) == d
            } else {
                &&& r == flips
                &&& *final(data) == (CreditRuntimeData {
                    exit_button_visibility_timer: if flips { 0 } else { t },
                    should_exit_button_visible: if flips {
                        !d.should_exit_button_visible
                    } else {
                        d.should_exit_button_visible
                    },
                    ..d
                })
            }
        }),
{
    if data.exit_text_entity.is_none() {
        return false;
    }
    data.exit_button_visibility_timer = data.exit_button_visibility_timer.saturating_add(delta_us);
    if data.should_exit_button_visible {
        if data.exit_button_visibility_timer >= EXIT_SHOWN_US {
            data.should_exit_button_visible = false;
            data.exit_button_visibility_timer = 0;
            return true;
        }
    } else if data.exit_button_visibility_timer >= EXIT_HIDDEN_US {
        data.should_exit_button_visible = true;
        data.exit_button_visibility_timer = 0;
        return true;
    }
    false
}

/// Once the fade-out is over, goes back to the main menu, exactly once.
pub fn transitioning_to_main_menu_update(data: &mut CreditRuntimeData, fade: &FadeExternalData) -> (r: Option<MyGameState>)
    ensures
        ({
            let d = *old(data);
            let moves = d.is_transitioning_out && !d.request_sent_to_next_state && !fade.spec_busy();
            &&& moves ==> r == Some(MyGameState::MainMenu) && *final(data) == (CreditRuntimeData {
                request_sent_to_next_state: true,
                ..d
            })
            &&& !moves ==> r is None && *final(data) == d
        }),
{
    if !data.is_transitioning_out || data.request_sent_to_next_state {
        return None;
    }
    if fade.is_busy() {
        return None;
    }
    data.request_sent_to_next_state = true;
    Some(MyGameState::MainMenu)
}

} // verus!
