//! Turn-based card combat: a player with a deck, a hand and a discard pile
//! faces a scripted enemy, and a guided walkthrough drives the same engine.

pub mod card;
pub mod enemy;
pub mod engine;
pub mod events;
pub mod guide;
pub mod logger;
pub mod narration;
pub mod player;
pub mod random;
pub mod report;
pub mod rules;
pub mod saturation;
pub mod text;
pub mod tutorial;

pub use crate::card::{Card, SpecialAbility};
pub use crate::enemy::Enemy;
pub use crate::engine::CoreGameState;
pub use crate::logger::GameLogger;
pub use crate::player::Player;
