//! The per-tick update systems.  Each tick runs them once, in this fixed
//! order: jump, gravity, parallax, collision, score display; a timer-driven
//! hazard spawner follows (see [`crate::ferris::Ferris`]).

pub use self::collision::CollisionSystem;
pub use self::gravity::GravitySystem;
pub use self::jump::JumpSystem;
pub use self::parallax::ParallaxSystem;
pub use self::score_check::ScoreCheckSystem;

pub mod collision;
pub mod gravity;
pub mod jump;
pub mod parallax;
pub mod score_check;
