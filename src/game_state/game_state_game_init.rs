use vstd::prelude::*;

use crate::game_state::MyGameState;

verus! {

/// The initial state lasts one tick and hands over to the splash screen.
pub fn game_init_fixed_update() -> (r: MyGameState)
    ensures
        r == MyGameState::SplashScreen,
{
    MyGameState::SplashScreen
}

} // verus!
