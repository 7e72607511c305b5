//! Gameplay logic for a small 2D "dodge the creeps" arcade game.
//!
//! The host engine delivers events (frame ticks, timer expiries, collision
//! and button signals); the types here hold the game state those events act
//! on, with the round lifecycle made explicit as a state machine.

pub mod decimal;
pub mod game;
pub mod geom;
pub mod hud;
pub mod mob;
pub mod player;
pub mod rng;

pub use game::Game;
pub use game::Phase;
pub use game::TimerId;
pub use geom::Vec2;
pub use hud::Hud;
pub use hud::Message;
pub use mob::Mob;
pub use player::DirectionalInput;
pub use player::Player;
pub use player::PlayerAnim;
