use vstd::prelude::*;

pub mod game_state_credit;
pub mod game_state_game_init;
pub mod game_state_in_game;
pub mod game_state_main_menu;
pub mod game_state_splash_screen;

verus! {

/// The top-level states of the game.
#[derive(Clone, Copy, PartialEq, Eq, Debug, Hash, Structural)]
pub enum MyGameState {
    GameInit,
    SplashScreen,
    MainMenu,
    InGame,
    Credit,
}

impl Default for MyGameState {
    fn default() -> (r: MyGameState)
        ensures
            r == MyGameState::GameInit,
    {
        MyGameState::GameInit
    }
}

} // verus!
