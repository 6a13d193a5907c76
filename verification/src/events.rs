//! The notifications that the behaviours read and send.

use vstd::prelude::*;
use crate::entity::Entity;

verus! {

/// A notification of the physics engine: two bodies began or stopped
/// touching.
#[derive(Clone, Copy, Debug, PartialEq, Eq)]
pub enum CollisionEvent {
    Started(Entity, Entity),
    Stopped(Entity, Entity),
}

/// The notification that a monster walked into something.
#[derive(Clone, Copy, Debug, PartialEq, Eq)]
pub struct MonsterWalkedIntoWallEvent {
    pub entity: Entity,
}

impl CollisionEvent {
    /// Whether the notification says that `entity` began to touch something.
    pub open spec fn starts_contact_of(self, entity: Entity) -> bool {
        match self {
            CollisionEvent::Started(first, second) => first == entity || second == entity,
            CollisionEvent::Stopped(_, _) => false,
        }
    }

    /// Decides whether the notification says that `entity` began to touch
    /// something.
    pub fn involves(&self, entity: Entity) -> (involved: bool)
        ensures
            involved == self.starts_contact_of(entity),
    {
        match self {
            CollisionEvent::Started(first, second) => *first == entity || *second == entity,
            CollisionEvent::Stopped(_, _) => false,
        }
    }
}

} // verus!
