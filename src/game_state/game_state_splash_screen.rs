use vstd::prelude::*;

use crate::fade_transition::{FadeExternalData, FadeTransitionType, TransitionSpeed};
use crate::game_state::MyGameState;
use crate::utils::EntityId;

verus! {

/// A tick at least this long (a sixty-fourth of a second) ends the splash screen.
pub const SPLASH_TICK_US: u64 = 15_625;

#[derive(Clone, Copy, PartialEq, Eq, Debug, Structural)]
pub struct SplashScreenRuntimeData {
    pub entity: Option<EntityId>,
    pub is_fading_out_of_splash_screen: bool,
    pub is_changing_to_main_menu: bool,
}

impl SplashScreenRuntimeData {
    pub fn new() -> (r: SplashScreenRuntimeData)
        ensures
            r.entity is None,
            !r.is_fading_out_of_splash_screen,
            !r.is_changing_to_main_menu,
    {
        SplashScreenRuntimeData {
            entity: None,
            is_fading_out_of_splash_screen: false,
            is_changing_to_main_menu: false,
        }
    }
}

/// Shows the logo `logo` and asks for a horizontal fade-in.
pub fn splash_screen_enter(data: &mut SplashScreenRuntimeData, fade: &mut FadeExternalData, logo: EntityId)
    ensures
        *final(data) == (SplashScreenRuntimeData { entity: Some(logo), ..*old(data) }),
        !old(fade).spec_busy() ==> final(fade).request == (crate::fade_transition::FadeRequestData {
            request_valid: true,
            is_fade_in: true,
            speed: TransitionSpeed::Medium,
            transition_type: FadeTransitionType::Horizontal,
        }),
        old(fade).spec_busy() ==> *final(fade) == *old(fade),
{
    data.entity = Some(logo);
    fade.request_fade(true, TransitionSpeed::Medium, FadeTransitionType::Horizontal);
}

/// The logo to remove on leaving.
pub fn splash_screen_exit(data: &SplashScreenRuntimeData) -> (r: Option<EntityId>)
    ensures
        r == data.entity,
{
    data.entity
}

/// One fixed tick of the splash screen: after a full-length tick it asks for
/// a fast horizontal fade-out, and once that is over it moves to the main menu.
pub fn splash_screen_fixed_update(
    data: &mut SplashScreenRuntimeData,
    fade: &mut FadeExternalData,
    delta_us: u64,
) -> (r: Option<MyGameState>)
    ensures
        ({
            let d = *old(data);
            let f = *old(fade);
            if d.is_changing_to_main_menu {
                r is None && *final(data) == d && *final(fade) == f
            } else if d.is_fading_out_of_splash_screen {
                &&& *final(fade) == f
                &&& f.spec_busy() ==> r is None && *final(data) == d
                &&& !f.spec_busy() ==> r == Some(MyGameState::MainMenu) && *final(data) == (
                SplashScreenRuntimeData { is_changing_to_main_menu: true, ..d })
            } else {
                let starts = delta_us >= SPLASH_TICK_US && !f.spec_busy();
                &&& r is None
                &&& starts ==> *final(data) == (SplashScreenRuntimeData {
                    is_fading_out_of_splash_screen: true,
                    ..d
                }) && final(fade).request == (crate::fade_transition::FadeRequestData {
                    request_valid: true,
                    is_fade_in: false,
                    speed: TransitionSpeed::Fast,
                    transition_type: FadeTransitionType::Horizontal,
                })
                &&& !starts ==> *final(data) == d && *final(fade) == f
            }
        }),
{
    if data.is_changing_to_main_menu {
        return None;
    }
    if data.is_fading_out_of_splash_screen {
        if fade.is_busy() {
            return None;
        }
        data.is_changing_to_main_menu = true;
        return Some(MyGameState::MainMenu);
    }
    if delta_us >= SPLASH_TICK_US {
        if fade.request_fade(false, TransitionSpeed::Fast, FadeTransitionType::Horizontal) {
            data.is_fading_out_of_splash_screen = true;
        }
    }
    None
}

} // verus!
