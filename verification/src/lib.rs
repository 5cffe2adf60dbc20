//! Gameplay logic for a lane-based endless runner: lane positions, score and
//! difficulty ramping, portal realms, player movement decisions, and the
//! pause overlay's state. The host engine's scene tree, rendering and input
//! polling live outside this crate; the functions here work on plain values.

pub mod hud;
pub mod main_scene;
pub mod player;
pub mod portal;
mod random;

pub use hud::UI;
pub use main_scene::Main;
pub use main_scene::PlatformDirection;
pub use player::Player;
pub use portal::Portal;
pub use portal::Realm;
