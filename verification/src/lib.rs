//! Verified behaviour rules for the patrolling monsters of a side-scrolling
//! platformer: walking in the facing direction, turning around at walls and
//! the occasional random jump.
//!
//! The rules work on plain values. A host engine hands them its entities and
//! collision notifications, and takes velocities, facing directions and
//! wall-contact notifications back.

pub mod components;
pub mod direction;
pub mod entity;
pub mod events;
pub mod laws;
pub mod plugin;
pub mod random;
pub mod scalar;
pub mod systems;
pub mod world;

pub use components::{Bug, Jumper, Row, Velocity};
pub use direction::GameDirection;
pub use entity::Entity;
pub use events::{CollisionEvent, MonsterWalkedIntoWallEvent};
pub use scalar::Scalar;
pub use plugin::{AppState, MonsterAiPlugin};
pub use world::World;
