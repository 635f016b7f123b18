//! Gameplay core of a small ball-battle arcade game: team rules, collision
//! bookkeeping, the fade transition engine, the level catalog and the game-state
//! controllers, all over exact integer models.

pub mod ball_type;
pub mod fade_transition;
pub mod game_state;
pub mod input;
pub mod level;
pub mod physic;
pub mod render;
pub mod sound_manager;
pub mod text;
pub mod utils;
